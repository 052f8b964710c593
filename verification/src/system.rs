//! Power-source status reported by the system controller.

use vstd::prelude::*;

verus! {

/// Raw battery status byte as the power-management controller reports it:
/// the low nibble carries the charge level, bit 7 is set while the console
/// runs from an external power source.
#[derive(Debug, Clone, Copy)]
pub struct Battery(u8);

/// Charge level decoded from the low nibble of the status byte. The
/// controller reports `3` for a low charge and `15` for a full one; any
/// other nibble is passed through untouched.
#[derive(Debug, Clone, Copy, PartialEq, Eq, Structural)]
pub enum BatteryLevel {
    Low,
    High,
    Level(u8),
}

/// The decoding that [`Battery::level`] performs on a status byte.
pub open spec fn spec_level(raw: u8) -> BatteryLevel {
    if raw & 0x0F == 3 {
        BatteryLevel::Low
    } else if raw & 0x0F == 15 {
        BatteryLevel::High
    } else {
        BatteryLevel::Level(raw & 0x0F)
    }
}

impl Battery {
    /// The raw status byte this reading wraps.
    pub closed spec fn raw(&self) -> u8 {
        self.0
    }

    /// Wraps a raw controller word, keeping only its low byte.
    pub fn from_raw(raw: u32) -> (b: Self)
        ensures
            b.raw() == raw as u8,
    {
        Self(raw as u8)
    }

    /// Decodes the charge level from the low nibble of the status byte.
    pub fn level(&self) -> (l: BatteryLevel)
        ensures
            l == spec_level(self.raw()),
    {
        match self.0 & 0x0F {
            3 => BatteryLevel::Low,
            15 => BatteryLevel::High,
            level => BatteryLevel::Level(level),
        }
    }

    /// True while the console runs from an external power source (bit 7).
    pub fn external(&self) -> (e: bool)
        ensures
            e == (self.raw() & 0x80 != 0),
    {
        self.0 & 0x80 != 0
    }
}

} // verus!
