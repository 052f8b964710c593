//! A mutual exclusion primitive protecting shared data.
//!
//! The lock state is a boolean [`Atomic`] flag; acquisition is one
//! `compare_exchange(false, true)` on it, performed inside a critical
//! section, so on this single core the unlocked-to-locked transition is
//! indivisible. The protected value is accessible only while the flag is
//! set, and only through the single [`MutexGuard`] that set it: the
//! guard owns the value for the whole locked span, and handing the guard
//! back through [`Mutex::unlock`] is the one path that clears the flag.
//! There is no fairness, no bounded wait and no reentrancy; releasing a
//! lock with a guard that another mutex issued is a caller contract
//! violation that is never detected at runtime, exactly as unsynchronized
//! access to the protected data would be.

use vstd::prelude::*;
use crate::atomic::Atomic;

verus! {

/// A mutual exclusion primitive useful for protecting shared data.
pub struct Mutex<T> {
    lock: Atomic<bool>,
    data: Option<T>,
}

/// Exclusive access to the value a [`Mutex`] protects, bounded by the
/// span between acquisition and release. The guard owns the sole
/// obligation to clear the lock flag, by being returned to its mutex
/// through [`Mutex::unlock`] on every exit path out of the guarded
/// scope; it must never be released by a context other than the one
/// that acquired it. The model does not prevent building a guard
/// directly and releasing a mutex that never issued it: that misuse is
/// the unchecked caller contract violation named above, never detected
/// at runtime.
pub struct MutexGuard<T> {
    value: T,
}

impl<T> View for MutexGuard<T> {
    type V = T;

    closed spec fn view(&self) -> T {
        self.value
    }
}

impl<T> MutexGuard<T> {
    /// Wraps the protected value for the span of one locked section.
    pub fn new(value: T) -> (g: Self)
        ensures
            g@ == value,
    {
        Self { value }
    }

    /// Reads the protected value.
    pub fn deref(&self) -> (r: &T)
        ensures
            *r == self@,
    {
        &self.value
    }

    /// Grants exclusive read/write access to the protected value.
    pub fn deref_mut(&mut self) -> (r: &mut T)
        ensures
            *r == old(self)@,
            final(self)@ == *final(r),
    {
        &mut self.value
    }
}

impl<T> Mutex<T> {
    /// Whether the lock flag is set, that is, a guard is outstanding.
    pub closed spec fn locked(&self) -> bool {
        self.lock@
    }

    /// The value the mutex holds while it is unlocked. While a guard is
    /// outstanding the value lives in the guard instead.
    pub closed spec fn value(&self) -> T {
        self.data->Some_0
    }

    /// The mutex holds the protected value exactly while the lock flag
    /// is clear. Constructors establish this and every operation
    /// preserves it.
    pub closed spec fn wf(&self) -> bool {
        self.locked() <==> self.data is None
    }

    /// The unlocked mutex holding `data`, as contracts name it.
    pub closed spec fn spec_new(data: T) -> Mutex<T> {
        Mutex { lock: Atomic::spec_new(false), data: Some(data) }
    }

    /// Creates a new mutex in an unlocked state ready for use, holding
    /// `data`.
    pub fn new(data: T) -> (m: Self)
        ensures
            m.wf(),
            !m.locked(),
            m.value() == data,
            m == Self::spec_new(data),
    {
        Self { lock: Atomic::new(false), data: Some(data) }
    }

    /// Attempts to acquire this lock without blocking: one
    /// `compare_exchange(false, true)` on the lock flag. On an unlocked
    /// mutex it returns the guard and the mutex becomes locked; on an
    /// already-locked mutex it returns no guard and changes nothing.
    pub fn try_lock(&mut self) -> (g: Option<MutexGuard<T>>)
        requires
            old(self).wf(),
        ensures
            final(self).wf(),
            old(self).locked() ==> g is None && *final(self) == *old(self),
            !old(self).locked() ==> (g matches Some(guard) && guard@ == old(self).value()
                && final(self).locked()),
    {
        match self.lock.compare_exchange(false, true) {
            Ok(_) => {
                let value = self.data.take();
                Some(MutexGuard::new(value.unwrap()))
            },
            Err(_) => None,
        }
    }

    /// Acquires the mutex. Each failed attempt yields the core to the
    /// cooperative scheduler before retrying, so the holder can run and
    /// release; a context that calls this while itself holding the lock
    /// would retry forever, which the precondition rules out.
    pub fn lock(&mut self) -> (g: MutexGuard<T>)
        requires
            old(self).wf(),
            !old(self).locked(),
        ensures
            final(self).wf(),
            final(self).locked(),
            g@ == old(self).value(),
    {
        loop
            invariant
                self.wf(),
                !self.locked(),
                self.value() == old(self).value(),
            decreases 0int,
        {
            if let Some(guard) = self.try_lock() {
                return guard;
            }
            // On an unlocked mutex the acquire attempt cannot fail, so a
            // retry (the yield-then-spin path) is never reached here.
        }
    }

    /// Releases the lock, storing the guard's value back into the mutex.
    /// This is the scope-exit path of every guard, the only legal path
    /// that clears the lock flag; it must run on every exit out of the
    /// guarded scope, error propagation included. That the guard came
    /// from this mutex is the caller's unchecked obligation.
    pub fn unlock(&mut self, guard: MutexGuard<T>)
        requires
            old(self).wf(),
            old(self).locked(),
        ensures
            final(self).wf(),
            !final(self).locked(),
            final(self).value() == guard@,
    {
        self.data = Some(guard.value);
        self.lock.store(false);
    }

    /// A guarded scope: acquires the lock, runs `f` on the protected
    /// value, and releases the lock exactly once on every exit path —
    /// the early error path included, so no lock state leaks. `f` hands
    /// back the value the scope leaves behind together with its outcome,
    /// which is returned unchanged.
    pub fn with_lock<E, F: FnOnce(T) -> (T, Result<(), E>)>(&mut self, f: F) -> (r: Result<
        (),
        E,
    >)
        requires
            old(self).wf(),
            !old(self).locked(),
            call_requires(f, (old(self).value(),)),
        ensures
            final(self).wf(),
            !final(self).locked(),
            call_ensures(f, (old(self).value(),), (final(self).value(), r)),
    {
        let guard = self.lock();
        let (value, outcome) = f(guard.value);
        self.unlock(MutexGuard::new(value));
        outcome
    }
}

/// What [`Mutex::spec_new`] builds: an unlocked, well-formed mutex
/// holding the given value.
pub broadcast proof fn lemma_spec_new<T>(data: T)
    ensures
        (#[trigger] Mutex::spec_new(data)).wf(),
        !Mutex::spec_new(data).locked(),
        Mutex::spec_new(data).value() == data,
{
    crate::atomic::lemma_spec_new::<bool>(false);
}

impl<T> From<T> for Mutex<T> {
    fn from(data: T) -> (m: Mutex<T>) {
        Mutex::new(data)
    }
}

impl<T> vstd::std_specs::convert::FromSpecImpl<T> for Mutex<T> {
    open spec fn obeys_from_spec() -> bool {
        true
    }

    open spec fn from_spec(data: T) -> Mutex<T> {
        Mutex::spec_new(data)
    }
}

impl<T: Default> Default for Mutex<T> {
    /// An unlocked mutex holding `T`'s default value. For a generic `T`
    /// no specification of `T::default()` exists, so the contract fixes
    /// the lock state only.
    fn default() -> (m: Self)
        ensures
            m.wf(),
            !m.locked(),
    {
        Mutex::new(T::default())
    }
}

} // verus!
