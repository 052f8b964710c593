use nds::atomic::{run_ops, Atomic, AtomicOp};

#[test]
fn new_load_into_inner() {
    let cell = Atomic::new(17u32);
    assert_eq!(cell.load(), 17);
    assert_eq!(cell.into_inner(), 17);
}

#[test]
fn store_overwrites() {
    let mut cell = Atomic::new(1u8);
    cell.store(200);
    assert_eq!(cell.load(), 200);
}

#[test]
fn swap_returns_prior_value() {
    let mut cell = Atomic::new(7i64);
    let prev = cell.swap(-3);
    assert_eq!(prev, 7);
    assert_eq!(cell.load(), -3);
}

#[test]
fn compare_exchange_success_then_failure() {
    let mut cell = Atomic::new(5i32);
    assert_eq!(cell.compare_exchange(5, 7), Ok(5));
    assert_eq!(cell.load(), 7);
    assert_eq!(cell.compare_exchange(5, 7), Err(7));
    assert_eq!(cell.load(), 7);
}

#[test]
fn fetch_update_applies_replacement() {
    let mut cell = Atomic::new(10usize);
    let r = cell.fetch_update(|v| if v < 100 { Some(v + 1) } else { None });
    assert_eq!(r, Ok(10));
    assert_eq!(cell.load(), 11);
}

#[test]
fn fetch_update_rejection_leaves_cell_untouched() {
    let mut cell = Atomic::new(100usize);
    let r = cell.fetch_update(|v| if v < 100 { Some(v + 1) } else { None });
    assert_eq!(r, Err(100));
    assert_eq!(cell.load(), 100);
}

#[test]
fn bool_fetch_and() {
    let mut cell = Atomic::new(true);
    assert_eq!(cell.fetch_and(false), true);
    assert_eq!(cell.load(), false);
    assert_eq!(cell.fetch_and(true), false);
    assert_eq!(cell.load(), false);
}

#[test]
fn bool_fetch_or() {
    let mut cell = Atomic::new(false);
    assert_eq!(cell.fetch_or(false), false);
    assert_eq!(cell.load(), false);
    assert_eq!(cell.fetch_or(true), false);
    assert_eq!(cell.load(), true);
}

#[test]
fn bool_fetch_xor() {
    let mut cell = Atomic::new(true);
    assert_eq!(cell.fetch_xor(true), true);
    assert_eq!(cell.load(), false);
    assert_eq!(cell.fetch_xor(true), false);
    assert_eq!(cell.load(), true);
}

#[test]
fn program_order_matches_plain_variable() {
    let mut cell = Atomic::new(1u32);
    let ops = vec![
        AtomicOp::Load,
        AtomicOp::Store(3),
        AtomicOp::Swap(9),
        AtomicOp::Load,
        AtomicOp::Store(4),
    ];
    run_ops(&mut cell, &ops);

    let mut plain: u32 = 1;
    for op in &ops {
        match *op {
            AtomicOp::Load => {},
            AtomicOp::Store(x) => plain = x,
            AtomicOp::Swap(x) => plain = x,
        }
    }
    assert_eq!(cell.load(), plain);
    assert_eq!(cell.into_inner(), 4);
}

#[test]
fn get_mut_grants_direct_access() {
    let mut cell = Atomic::new(3u16);
    *cell.get_mut() = 44;
    assert_eq!(cell.load(), 44);
}

#[test]
fn default_cell_holds_the_width_default() {
    let cell: Atomic<u32> = Default::default();
    assert_eq!(cell.load(), 0);
    let cell: Atomic<i64> = Default::default();
    assert_eq!(cell.load(), 0);
    let cell: Atomic<bool> = Default::default();
    assert_eq!(cell.load(), false);
}
