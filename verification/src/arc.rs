//! A reference-counted shared pointer over an arena of heap cells.
//!
//! Every handle produced by [`Arc::clone`] shares one [`ArcInner`] cell
//! holding the contained value and an independent strong/weak counter
//! pair; the cells live in an [`ArcHeap`] arena that stands for the heap
//! allocator. Every counter mutation routes through an [`Atomic`] cell
//! and thus through a critical section, so on this single core a torn
//! read-modify-write of a count cannot occur. The value is exclusively
//! owned while the strong count is 1 and logically shared above that; it
//! is destroyed by whichever release observes the count reach zero, and
//! the backing cell is freed only once the weak count also reaches zero
//! — the strong holders collectively keep one implicit weak reference
//! until the last of them releases. Exceeding [`MAX_REFCOUNT`] strong
//! holders would be a fatal resource-exhaustion condition, never a
//! silent wraparound, so acquiring a handle past it is ruled out by
//! precondition.

use vstd::prelude::*;
use core::marker::PhantomData;
use crate::atomic::Atomic;

verus! {

/// The greatest number of strong holders a cell may have.
pub const MAX_REFCOUNT: usize = usize::MAX / 2;

/// One heap cell: the contained value together with its strong and weak
/// counts. The data is present exactly while the strong count is
/// nonzero.
struct ArcInner<T> {
    strong: Atomic<usize>,
    weak: Atomic<usize>,
    data: Option<T>,
}

/// The arena the cells live in, standing for the heap allocator: a cell
/// is allocated by [`Arc::new`] and freed — its slot emptied — once its
/// weak count reaches zero.
pub struct ArcHeap<T> {
    slots: Vec<Option<ArcInner<T>>>,
}

/// A shared-ownership handle on a cell of an [`ArcHeap`]. Handles are
/// never duplicated silently: a new one comes only from [`Arc::clone`],
/// which raises the strong count, and every handle is surrendered to
/// [`Arc::drop`], which lowers it.
pub struct Arc<T> {
    index: usize,
    _marker: PhantomData<T>,
}

impl<T> Arc<T> {
    /// The cell this handle names.
    pub closed spec fn id(&self) -> int {
        self.index as int
    }

    /// Whether the two handles share one cell, as every handle cloned
    /// from another does.
    pub open spec fn same_cell(&self, other: &Arc<T>) -> bool {
        self.id() == other.id()
    }
}

impl<T> ArcHeap<T> {
    /// Whether `a` names a cell of this arena that is still allocated.
    pub closed spec fn live(&self, a: &Arc<T>) -> bool {
        a.index < self.slots@.len() && self.slots@[a.index as int] is Some
    }

    /// The strong count of the cell `a` names.
    pub closed spec fn strong_of(&self, a: &Arc<T>) -> nat {
        self.slots@[a.index as int]->Some_0.strong@ as nat
    }

    /// The weak count of the cell `a` names.
    pub closed spec fn weak_of(&self, a: &Arc<T>) -> nat {
        self.slots@[a.index as int]->Some_0.weak@ as nat
    }

    /// The value the cell `a` names contains.
    pub closed spec fn value_of(&self, a: &Arc<T>) -> T {
        self.slots@[a.index as int]->Some_0.data->Some_0
    }

    /// Every allocated cell holds its value, at least one and at most
    /// [`MAX_REFCOUNT`] strong holders, and the one implicit weak
    /// reference of the strong side. Constructors establish this and
    /// every operation preserves it.
    pub closed spec fn wf(&self) -> bool {
        forall|i: int|
            0 <= i < self.slots@.len() && self.slots@[i] is Some ==> {
                let inner = self.slots@[i]->Some_0;
                &&& inner.strong@ >= 1
                &&& inner.strong@ <= MAX_REFCOUNT
                &&& inner.weak@ == 1
                &&& inner.data is Some
            }
    }

    /// A fresh arena with no cells: no handle is live in it.
    pub fn new() -> (h: Self)
        ensures
            h.wf(),
            forall|b: Arc<T>| !h.live(&b),
    {
        Self { slots: Vec::new() }
    }
}

impl<T> Arc<T> {
    /// Allocates one fresh cell holding `data`, with a strong count of 1
    /// and a weak count of 1, and returns the first handle on it. Every
    /// cell that was live stays live and untouched; the new cell is
    /// shared with no prior handle.
    pub fn new(heap: &mut ArcHeap<T>, data: T) -> (a: Arc<T>)
        requires
            old(heap).wf(),
        ensures
            final(heap).wf(),
            final(heap).live(&a),
            final(heap).strong_of(&a) == 1,
            final(heap).weak_of(&a) == 1,
            final(heap).value_of(&a) == data,
            forall|b: Arc<T>|
                #[trigger] old(heap).live(&b) ==> final(heap).live(&b) && !b.same_cell(&a)
                    && final(heap).strong_of(&b) == old(heap).strong_of(&b)
                    && final(heap).weak_of(&b) == old(heap).weak_of(&b)
                    && final(heap).value_of(&b) == old(heap).value_of(&b),
    {
        let index = heap.slots.len();
        heap.slots.push(
            Some(ArcInner { strong: Atomic::new(1), weak: Atomic::new(1), data: Some(data) }),
        );
        Arc { index, _marker: PhantomData }
    }

    /// Raises the strong count of the shared cell by one and returns a
    /// new handle on it. A count already at [`MAX_REFCOUNT`] may not be
    /// raised: that would be fatal resource exhaustion, so the
    /// precondition rules it out. No other cell changes.
    pub fn clone(heap: &mut ArcHeap<T>, this: &Arc<T>) -> (a: Arc<T>)
        requires
            old(heap).wf(),
            old(heap).live(this),
            old(heap).strong_of(this) < MAX_REFCOUNT,
        ensures
            final(heap).wf(),
            final(heap).live(&a),
            a.same_cell(this),
            final(heap).strong_of(this) == old(heap).strong_of(this) + 1,
            final(heap).strong_of(&a) == old(heap).strong_of(this) + 1,
            final(heap).weak_of(&a) == old(heap).weak_of(this),
            final(heap).value_of(&a) == old(heap).value_of(this),
            forall|b: Arc<T>|
                #[trigger] old(heap).live(&b) ==> final(heap).live(&b)
                    && final(heap).weak_of(&b) == old(heap).weak_of(&b)
                    && final(heap).value_of(&b) == old(heap).value_of(&b)
                    && (b.same_cell(this) ==> final(heap).strong_of(&b) == old(heap).strong_of(&b)
                    + 1)
                    && (!b.same_cell(this) ==> final(heap).strong_of(&b) == old(heap).strong_of(
                        &b,
                    )),
    {
        let slot = &mut heap.slots[this.index];
        match slot {
            Some(inner) => {
                let s = inner.strong.load();
                inner.strong.store(s + 1);
            },
            None => {},
        }
        Arc { index: this.index, _marker: PhantomData }
    }

    /// Surrenders one handle: lowers the strong count of its cell by
    /// one. The release that observes the count reach zero destroys the
    /// contained value in place and returns it — so the destructor runs
    /// exactly once, at the last strong release — and then lowers the
    /// weak count, freeing the backing cell when that too reaches zero.
    /// Any other release returns nothing and leaves the value shared.
    /// No other cell changes.
    pub fn drop(heap: &mut ArcHeap<T>, this: Arc<T>) -> (r: Option<T>)
        requires
            old(heap).wf(),
            old(heap).live(&this),
        ensures
            final(heap).wf(),
            old(heap).strong_of(&this) > 1 ==> r is None && final(heap).live(&this)
                && final(heap).strong_of(&this) == old(heap).strong_of(&this) - 1
                && final(heap).weak_of(&this) == old(heap).weak_of(&this)
                && final(heap).value_of(&this) == old(heap).value_of(&this),
            old(heap).strong_of(&this) == 1 ==> r == Some(old(heap).value_of(&this))
                && !final(heap).live(&this),
            forall|b: Arc<T>|
                #[trigger] old(heap).live(&b) && !b.same_cell(&this) ==> final(heap).live(&b)
                    && final(heap).strong_of(&b) == old(heap).strong_of(&b)
                    && final(heap).weak_of(&b) == old(heap).weak_of(&b)
                    && final(heap).value_of(&b) == old(heap).value_of(&b),
            forall|b: Arc<T>|
                #[trigger] old(heap).live(&b) && b.same_cell(&this) && old(heap).strong_of(&this)
                    > 1 ==> final(heap).live(&b) && final(heap).strong_of(&b) == old(
                    heap,
                ).strong_of(&b) - 1 && final(heap).weak_of(&b) == old(heap).weak_of(&b)
                    && final(heap).value_of(&b) == old(heap).value_of(&b),
            forall|b: Arc<T>|
                b.same_cell(&this) ==> (final(heap).live(&b) <==> (old(heap).strong_of(&this) > 1
                    && old(heap).live(&b))),
    {
        let slot = &mut heap.slots[this.index];
        let mut inner = slot.take().unwrap();
        let s = inner.strong.load();
        if s == 1 {
            // Last strong holder: destroy the value in place, then give
            // up the strong side's implicit weak reference; the cell is
            // freed once the weak count reaches zero.
            let value = inner.data.take().unwrap();
            let w = inner.weak.load();
            inner.weak.store(w - 1);
            if inner.weak.load() > 0 {
                *slot = Some(inner);
            }
            Some(value)
        } else {
            inner.strong.store(s - 1);
            *slot = Some(inner);
            None
        }
    }

    /// Reads the strong count of the cell `this` names.
    pub fn strong_count(heap: &ArcHeap<T>, this: &Arc<T>) -> (n: usize)
        requires
            heap.wf(),
            heap.live(this),
        ensures
            n == heap.strong_of(this),
    {
        match &heap.slots[this.index] {
            Some(inner) => inner.strong.load(),
            None => 0,
        }
    }

    /// Reads the weak count of the cell `this` names.
    pub fn weak_count(heap: &ArcHeap<T>, this: &Arc<T>) -> (n: usize)
        requires
            heap.wf(),
            heap.live(this),
        ensures
            n == heap.weak_of(this),
    {
        match &heap.slots[this.index] {
            Some(inner) => inner.weak.load(),
            None => 0,
        }
    }

    /// Reads the shared value through the handle.
    pub fn get<'a>(heap: &'a ArcHeap<T>, this: &Arc<T>) -> (r: &'a T)
        requires
            heap.wf(),
            heap.live(this),
        ensures
            *r == heap.value_of(this),
    {
        heap.slots[this.index].as_ref().unwrap().data.as_ref().unwrap()
    }
}

} // verus!
