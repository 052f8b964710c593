use nds::interrupt::{critical_section, Ime, Interrupt};

#[test]
fn mask_constants_are_distinct_bits() {
    assert_eq!(Interrupt::VBLANK, 1 << 0);
    assert_eq!(Interrupt::HBLANK, 1 << 1);
    assert_eq!(Interrupt::VCOUNT, 1 << 2);
    assert_eq!(Interrupt::TIMER0, 1 << 3);
    assert_eq!(Interrupt::TIMER3, 1 << 6);
    assert_eq!(Interrupt::DMA0, 1 << 8);
    assert_eq!(Interrupt::DMA3, 1 << 11);
    assert_eq!(Interrupt::KEYS, 1 << 12);
    assert_eq!(Interrupt::CART, 1 << 13);
    assert_eq!(Interrupt::IPC_SYNC, 1 << 16);
    assert_eq!(Interrupt::FIFO_EMPTY, 1 << 17);
    assert_eq!(Interrupt::FIFO_NOT_EMPTY, 1 << 18);
    assert_eq!(Interrupt::CARD, 1 << 19);
    assert_eq!(Interrupt::CARD_LINE, 1 << 20);
}

#[test]
fn mask_union_and_intersection() {
    let a = Interrupt(Interrupt::VBLANK);
    let b = Interrupt(Interrupt::TIMER0);
    let both = a.bitor(b);
    assert_eq!(both.0, 0b1001);
    assert_eq!(both.bitand(a).0, Interrupt::VBLANK);
    assert_eq!(a.bitand(b).0, 0);

    let mut acc = Interrupt(0);
    acc.bitor_assign(a);
    acc.bitor_assign(b);
    assert_eq!(acc.0, 0b1001);
    acc.bitand_assign(b);
    assert_eq!(acc.0, Interrupt::TIMER0);
}

#[test]
fn critical_section_returns_the_computation_result() {
    let mut ime = Ime::new(true);
    let r = critical_section(&mut ime, |_ime| 2 + 3);
    assert_eq!(r, 5);
}

#[test]
fn critical_section_restores_enabled_state() {
    let mut ime = Ime::new(true);
    let _ = critical_section(&mut ime, |_ime| ());
    assert!(ime.read());
}

#[test]
fn critical_section_never_re_enables_on_its_own() {
    // Entered with interrupts already disabled — as a nested critical
    // section is — the exit must restore "disabled", not force-enable.
    let mut ime = Ime::new(false);
    let _ = critical_section(&mut ime, |_ime| ());
    assert!(!ime.read());
}

#[test]
fn ime_read_write_roundtrip() {
    let mut ime = Ime::new(false);
    ime.write(true);
    assert!(ime.read());
    ime.write(false);
    assert!(!ime.read());
}

#[test]
fn interrupts_are_disabled_while_the_computation_runs() {
    let mut ime = Ime::new(true);
    // The computation itself observes the master flag clear...
    let seen_enabled = critical_section(&mut ime, |i: &Ime| i.read());
    assert!(!seen_enabled);
    // ...and the prior state comes back afterwards.
    assert!(ime.read());
}
