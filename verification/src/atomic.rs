//! A memory cell with indivisible read-modify-write operations.
//!
//! The console has one execution core and no hardware atomic
//! instructions; apparent concurrency comes from interrupt handlers and
//! from cooperative tasks that interleave only at explicit yield points.
//! On the machine, each operation of [`Atomic`] brackets its plain
//! memory access with a critical section (see [`crate::interrupt`]),
//! and critical sections never overlap in time on a single core, so no
//! two accesses can interleave mid-operation. In this model the same
//! exclusion is carried by the exclusive borrow that every mutating
//! operation takes: `&mut` grants exactly the no-overlap that disabled
//! interrupts grant on the hardware. The contracts below state the
//! plain-variable semantics both give; these are software-exclusive
//! accesses, not lock-free hardware atomics.

use vstd::prelude::*;

verus! {

/// Closes [`Primitive`] to the fixed set of widths declared in this
/// module: nothing outside the crate may add an implementation.
pub trait Sealed {}

/// A fixed-width scalar that one indivisible memory cell can hold:
/// integers and `bool`. Such a value is read and written in a single
/// plain access, never torn.
pub trait Primitive: Sized + Copy + Sealed {
    /// Decides equality of two values of the width.
    fn eq_value(&self, other: &Self) -> (r: bool)
        ensures
            r == (self == other),
    ;
}

impl Sealed for u8 {}

impl Primitive for u8 {
    fn eq_value(&self, other: &Self) -> bool {
        *self == *other
    }
}

impl Sealed for u16 {}

impl Primitive for u16 {
    fn eq_value(&self, other: &Self) -> bool {
        *self == *other
    }
}

impl Sealed for u32 {}

impl Primitive for u32 {
    fn eq_value(&self, other: &Self) -> bool {
        *self == *other
    }
}

impl Sealed for u64 {}

impl Primitive for u64 {
    fn eq_value(&self, other: &Self) -> bool {
        *self == *other
    }
}

impl Sealed for u128 {}

impl Primitive for u128 {
    fn eq_value(&self, other: &Self) -> bool {
        *self == *other
    }
}

impl Sealed for usize {}

impl Primitive for usize {
    fn eq_value(&self, other: &Self) -> bool {
        *self == *other
    }
}

impl Sealed for i8 {}

impl Primitive for i8 {
    fn eq_value(&self, other: &Self) -> bool {
        *self == *other
    }
}

impl Sealed for i16 {}

impl Primitive for i16 {
    fn eq_value(&self, other: &Self) -> bool {
        *self == *other
    }
}

impl Sealed for i32 {}

impl Primitive for i32 {
    fn eq_value(&self, other: &Self) -> bool {
        *self == *other
    }
}

impl Sealed for i64 {}

impl Primitive for i64 {
    fn eq_value(&self, other: &Self) -> bool {
        *self == *other
    }
}

impl Sealed for i128 {}

impl Primitive for i128 {
    fn eq_value(&self, other: &Self) -> bool {
        *self == *other
    }
}

impl Sealed for isize {}

impl Primitive for isize {
    fn eq_value(&self, other: &Self) -> bool {
        *self == *other
    }
}

impl Sealed for bool {}

impl Primitive for bool {
    fn eq_value(&self, other: &Self) -> bool {
        *self == *other
    }
}

/// What [`Atomic::spec_new`] builds: the cell whose view is the given
/// value.
pub broadcast proof fn lemma_spec_new<T: Primitive>(v: T)
    ensures
        (#[trigger] Atomic::spec_new(v))@ == v,
{
}

/// A memory location which can be safely modified from multiple logical
/// contexts: on the hardware every access runs inside a critical
/// section, and in this model the exclusive borrow stands for that
/// exclusion, so on this single core each access is indivisible.
pub struct Atomic<T: Primitive> {
    v: T,
}

impl<T: Primitive> View for Atomic<T> {
    type V = T;

    closed spec fn view(&self) -> T {
        self.v
    }
}

impl<T: Primitive> Atomic<T> {
    /// The cell holding `v`, as contracts name it.
    pub closed spec fn spec_new(v: T) -> Atomic<T> {
        Atomic { v }
    }

    /// Creates a new `Atomic` holding `v`.
    pub fn new(v: T) -> (r: Self)
        ensures
            r@ == v,
            r == Self::spec_new(v),
    {
        Self { v }
    }

    /// Returns a mutable reference to the underlying value: the
    /// exclusive borrow itself guarantees unique ownership, so no
    /// critical section is needed.
    pub fn get_mut(&mut self) -> (r: &mut T)
        ensures
            *r == old(self)@,
            final(self)@ == *final(r),
    {
        &mut self.v
    }

    /// Consumes the cell and returns the contained value.
    pub fn into_inner(self) -> (r: T)
        ensures
            r == self@,
    {
        self.v
    }

    /// Reads the contained value.
    pub fn load(&self) -> (r: T)
        ensures
            r == self@,
    {
        self.v
    }

    /// Writes `val` into the cell.
    pub fn store(&mut self, val: T)
        ensures
            final(self)@ == val,
    {
        self.v = val;
    }

    /// Writes `val` into the cell and returns the prior value.
    pub fn swap(&mut self, val: T) -> (prev: T)
        ensures
            prev == old(self)@,
            final(self)@ == val,
    {
        let prev = self.v;
        self.v = val;
        prev
    }

    /// Writes `new` and returns `Ok` with the prior value when the cell
    /// held `current`; otherwise returns `Err` with the value actually
    /// held and leaves the cell untouched.
    pub fn compare_exchange(&mut self, current: T, new: T) -> (r: Result<T, T>)
        ensures
            old(self)@ == current ==> r == Ok::<T, T>(current) && final(self)@ == new,
            old(self)@ != current ==> r == Err::<T, T>(old(self)@) && *final(self) == *old(self),
    {
        let old_v = self.v;
        if old_v.eq_value(&current) {
            self.v = new;
            Ok(old_v)
        } else {
            Err(old_v)
        }
    }

    /// Hands the contained value to `f`; when `f` yields a replacement
    /// the cell takes it and `Ok` carries the prior value, otherwise the
    /// cell is untouched and `Err` carries its value. The cell does not
    /// retry internally: callers drive their own retry loops.
    pub fn fetch_update<F: FnOnce(T) -> Option<T>>(&mut self, f: F) -> (r: Result<T, T>)
        requires
            call_requires(f, (old(self)@,)),
        ensures
            r is Ok ==> r == Ok::<T, T>(old(self)@) && call_ensures(
                f,
                (old(self)@,),
                Some(final(self)@),
            ),
            r is Err ==> r == Err::<T, T>(old(self)@) && *final(self) == *old(self)
                && call_ensures(f, (old(self)@,), None::<T>),
    {
        let old_v = self.v;
        match f(old_v) {
            Some(new_v) => {
                self.v = new_v;
                Ok(old_v)
            },
            None => Err(old_v),
        }
    }
}

impl Atomic<bool> {
    /// Combined update, fixed here as a plain read-modify-write inside
    /// the exclusion window: the cell takes the conjunction of its value
    /// and `val`, and the prior value is returned.
    pub fn fetch_and(&mut self, val: bool) -> (prev: bool)
        ensures
            prev == old(self)@,
            final(self)@ == (old(self)@ && val),
    {
        let prev = self.v;
        self.v = prev && val;
        prev
    }

    /// Combined update, fixed here as a plain read-modify-write inside
    /// the exclusion window: the cell takes the disjunction of its value
    /// and `val`, and the prior value is returned.
    pub fn fetch_or(&mut self, val: bool) -> (prev: bool)
        ensures
            prev == old(self)@,
            final(self)@ == (old(self)@ || val),
    {
        let prev = self.v;
        self.v = prev || val;
        prev
    }

    /// Combined update, fixed here as a plain read-modify-write inside
    /// the exclusion window: the cell takes the exclusive disjunction of
    /// its value and `val`, and the prior value is returned.
    pub fn fetch_xor(&mut self, val: bool) -> (prev: bool)
        ensures
            prev == old(self)@,
            final(self)@ == (old(self)@ != val),
    {
        let prev = self.v;
        self.v = prev != val;
        prev
    }
}

/// Per-width `Default` impls: the cell starts at the width's default
/// value, stated exactly since the sealed set of widths is closed.
impl Default for Atomic<u8> {
    fn default() -> (r: Self)
        ensures
            r@ == 0u8,
    {
        Atomic::new(u8::default())
    }
}

impl Default for Atomic<u16> {
    fn default() -> (r: Self)
        ensures
            r@ == 0u16,
    {
        Atomic::new(u16::default())
    }
}

impl Default for Atomic<u32> {
    fn default() -> (r: Self)
        ensures
            r@ == 0u32,
    {
        Atomic::new(u32::default())
    }
}

impl Default for Atomic<u64> {
    fn default() -> (r: Self)
        ensures
            r@ == 0u64,
    {
        Atomic::new(u64::default())
    }
}

impl Default for Atomic<u128> {
    fn default() -> (r: Self)
        ensures
            r@ == 0u128,
    {
        Atomic::new(u128::default())
    }
}

impl Default for Atomic<usize> {
    fn default() -> (r: Self)
        ensures
            r@ == 0usize,
    {
        Atomic::new(usize::default())
    }
}

impl Default for Atomic<i8> {
    fn default() -> (r: Self)
        ensures
            r@ == 0i8,
    {
        Atomic::new(i8::default())
    }
}

impl Default for Atomic<i16> {
    fn default() -> (r: Self)
        ensures
            r@ == 0i16,
    {
        Atomic::new(i16::default())
    }
}

impl Default for Atomic<i32> {
    fn default() -> (r: Self)
        ensures
            r@ == 0i32,
    {
        Atomic::new(i32::default())
    }
}

impl Default for Atomic<i64> {
    fn default() -> (r: Self)
        ensures
            r@ == 0i64,
    {
        Atomic::new(i64::default())
    }
}

impl Default for Atomic<i128> {
    fn default() -> (r: Self)
        ensures
            r@ == 0i128,
    {
        Atomic::new(i128::default())
    }
}

impl Default for Atomic<isize> {
    fn default() -> (r: Self)
        ensures
            r@ == 0isize,
    {
        Atomic::new(isize::default())
    }
}

impl Default for Atomic<bool> {
    fn default() -> (r: Self)
        ensures
            r@ == false,
    {
        Atomic::new(bool::default())
    }
}

/// One operation of a `load`/`store`/`swap` program run against an
/// [`Atomic`] cell.
#[derive(Debug, Clone, Copy)]
pub enum AtomicOp<T> {
    Load,
    Store(T),
    Swap(T),
}

/// The value a plain variable holds after one operation.
pub open spec fn plain_step<T>(v: T, op: AtomicOp<T>) -> T {
    match op {
        AtomicOp::Load => v,
        AtomicOp::Store(x) => x,
        AtomicOp::Swap(x) => x,
    }
}

/// The value a plain variable holds after a whole program of operations,
/// applied in program order.
pub open spec fn plain_run<T>(init: T, ops: Seq<AtomicOp<T>>) -> T
    decreases ops.len(),
{
    if ops.len() == 0 {
        init
    } else {
        plain_step(plain_run(init, ops.drop_last()), ops.last())
    }
}

/// For any program of `load`/`store`/`swap` operations, the value the
/// cell finally holds equals applying the same operations in program
/// order to a plain variable: the critical section around each access
/// leaves no intermediate state observable.
pub fn run_ops<T: Primitive>(cell: &mut Atomic<T>, ops: &Vec<AtomicOp<T>>)
    ensures
        final(cell)@ == plain_run(old(cell)@, ops@),
{
    let ghost init: T = cell@;
    let mut i: usize = 0;
    while i < ops.len()
        invariant
            i <= ops.len(),
            cell@ == plain_run(init, ops@.subrange(0, i as int)),
        decreases ops.len() - i,
    {
        match ops[i] {
            AtomicOp::Load => {
                let _ = cell.load();
            },
            AtomicOp::Store(x) => {
                cell.store(x);
            },
            AtomicOp::Swap(x) => {
                let _ = cell.swap(x);
            },
        }
        proof {
            assert(ops@.subrange(0, i + 1 as int).drop_last() =~= ops@.subrange(0, i as int));
            assert(ops@.subrange(0, i + 1 as int).last() == ops@[i as int]);
        }
        i = i + 1;
    }
    proof {
        assert(ops@.subrange(0, ops@.len() as int) =~= ops@);
    }
}

} // verus!
