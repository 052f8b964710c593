//! Interrupt masks and the interrupt-exclusion primitive.
//!
//! The critical section is the foundation of every synchronization
//! primitive in this crate: it runs a computation with interrupts
//! globally disabled and restores the exact prior enabled/disabled state
//! on return, so nested critical sections compose transparently. It never
//! blocks and never fails; it must be kept as short as possible, since it
//! stalls every interrupt-driven subsystem for its duration.

use vstd::prelude::*;

verus! {

/// A set of hardware interrupt sources, one bit each, as the interrupt
/// controller's enable register lays them out.
#[derive(Debug, Clone, Copy, PartialEq, Eq, Structural)]
pub struct Interrupt(pub u32);

impl Interrupt {
    /// Vertical blank interrupt mask.
    pub const VBLANK: u32 = 0x1;

    /// Horizontal blank interrupt mask.
    pub const HBLANK: u32 = 0x2;

    /// Vcount match interrupt mask.
    pub const VCOUNT: u32 = 0x4;

    /// Timer 0 interrupt mask.
    pub const TIMER0: u32 = 0x8;

    /// Timer 1 interrupt mask.
    pub const TIMER1: u32 = 0x10;

    /// Timer 2 interrupt mask.
    pub const TIMER2: u32 = 0x20;

    /// Timer 3 interrupt mask.
    pub const TIMER3: u32 = 0x40;

    /// DMA 0 interrupt mask.
    pub const DMA0: u32 = 0x100;

    /// DMA 1 interrupt mask.
    pub const DMA1: u32 = 0x200;

    /// DMA 2 interrupt mask.
    pub const DMA2: u32 = 0x400;

    /// DMA 3 interrupt mask.
    pub const DMA3: u32 = 0x800;

    /// Keypad interrupt mask.
    pub const KEYS: u32 = 0x1000;

    /// GBA cartridge interrupt mask.
    pub const CART: u32 = 0x2000;

    /// IPC sync interrupt mask.
    pub const IPC_SYNC: u32 = 0x10000;

    /// Send FIFO empty interrupt mask.
    pub const FIFO_EMPTY: u32 = 0x20000;

    /// Receive FIFO not empty interrupt mask.
    pub const FIFO_NOT_EMPTY: u32 = 0x40000;

    /// DS card slot interrupt mask.
    pub const CARD: u32 = 0x80000;

    /// DS card line interrupt mask.
    pub const CARD_LINE: u32 = 0x100000;

    /// The union of the two mask sets.
    pub fn bitor(self, rhs: Interrupt) -> (r: Interrupt)
        ensures
            r.0 == self.0 | rhs.0,
    {
        Interrupt(self.0 | rhs.0)
    }

    /// Adds the sources of `rhs` to this mask set.
    pub fn bitor_assign(&mut self, rhs: Interrupt)
        ensures
            final(self).0 == old(self).0 | rhs.0,
    {
        self.0 = self.0 | rhs.0;
    }

    /// The intersection of the two mask sets.
    pub fn bitand(self, rhs: Interrupt) -> (r: Interrupt)
        ensures
            r.0 == self.0 & rhs.0,
    {
        Interrupt(self.0 & rhs.0)
    }

    /// Keeps only the sources that `rhs` also holds.
    pub fn bitand_assign(&mut self, rhs: Interrupt)
        ensures
            final(self).0 == old(self).0 & rhs.0,
    {
        self.0 = self.0 & rhs.0;
    }
}

/// The process-wide interrupt-master-enable flag. The hardware keeps it
/// in a register of its own, separate from the per-source enable
/// register; this type models that one flag as a value, so that the
/// save-disable-restore discipline of the critical section can be stated
/// and checked.
pub struct Ime {
    enabled: bool,
}

impl Ime {
    /// Whether interrupts are globally enabled.
    pub closed spec fn is_enabled(&self) -> bool {
        self.enabled
    }

    /// A master-enable flag in the given state.
    pub fn new(enabled: bool) -> (r: Self)
        ensures
            r.is_enabled() == enabled,
    {
        Self { enabled }
    }

    /// Reads the flag.
    pub fn read(&self) -> (r: bool)
        ensures
            r == self.is_enabled(),
    {
        self.enabled
    }

    /// Writes the flag.
    pub fn write(&mut self, enabled: bool)
        ensures
            final(self).is_enabled() == enabled,
    {
        self.enabled = enabled;
    }
}

/// Runs `f` with interrupts globally disabled and restores the exact
/// prior enabled/disabled state on return — the saved flag is read back
/// and rewritten, never unconditionally re-enabled — so nested critical
/// sections compose transparently. Returns whatever `f` returns.
///
/// The computation is handed a view of the master-enable flag and may
/// require it to be clear: the contract owes `f` a disabled flag for the
/// whole invocation, so a caller can rely on the exclusion, not merely
/// on the restoration.
pub fn critical_section<R, F: FnOnce(&Ime) -> R>(ime: &mut Ime, f: F) -> (r: R)
    requires
        forall|i: &Ime| !i.is_enabled() ==> call_requires(f, (i,)),
    ensures
        final(ime).is_enabled() == old(ime).is_enabled(),
        exists|i: Ime| !i.is_enabled() && call_ensures(f, (&i,), r),
{
    let saved = ime.read();
    ime.write(false);
    let result = f(&*ime);
    ime.write(saved);
    result
}

} // verus!
