//! Logical tasks contending for a [`Mutex`] under a cooperative
//! scheduler.
//!
//! The console has one execution core: logical tasks interleave only at
//! explicit yield points chosen by the scheduler. This module models two
//! such tasks, each repeatedly acquiring a shared `Mutex<i32>`,
//! incrementing the protected value and releasing the lock. A schedule —
//! an arbitrary sequence of choices of which task runs next — drives the
//! interleaving one step at a time; a task whose acquire attempt finds
//! the lock taken simply yields and retries when it is next scheduled,
//! the spin-then-yield strategy of [`Mutex::lock`]. The driver proves
//! that whenever both tasks complete their rounds the protected value
//! has grown by exactly two increments per round, regardless of the
//! interleaving granularity.

use vstd::prelude::*;
use crate::mutex::{Mutex, MutexGuard};

verus! {

/// One logical task: it must perform `rounds_left` more rounds of
/// acquire, increment, release against a shared `Mutex<i32>`. Each of
/// the three phases is a separate scheduler step, so the other task can
/// be interleaved between any two of them.
pub struct IncrementTask {
    rounds_left: u32,
    holding: Option<MutexGuard<i32>>,
    bumped: bool,
}

impl IncrementTask {
    /// Rounds the task has not yet completed.
    pub closed spec fn remaining(&self) -> nat {
        self.rounds_left as nat
    }

    /// Whether the task holds the lock right now.
    pub closed spec fn is_holding(&self) -> bool {
        self.holding is Some
    }

    /// Whether the increment of the current round has been applied.
    pub closed spec fn has_bumped(&self) -> bool {
        self.bumped
    }

    /// The protected value as the task's outstanding guard carries it.
    pub closed spec fn guard_value(&self) -> i32 {
        self.holding->Some_0@
    }

    /// A task only holds the lock in the middle of a round it has still
    /// to finish.
    pub closed spec fn wf(&self) -> bool {
        self.is_holding() ==> self.remaining() >= 1
    }

    /// A fresh task that has all `rounds` rounds ahead of it and does
    /// not hold the lock.
    pub fn new(rounds: u32) -> (t: Self)
        ensures
            t.wf(),
            t.remaining() == rounds,
            !t.is_holding(),
            !t.has_bumped(),
    {
        Self { rounds_left: rounds, holding: None, bumped: false }
    }

    /// Whether the task has completed all its rounds.
    pub fn is_done(&self) -> (r: bool)
        ensures
            r == (self.remaining() == 0),
    {
        self.rounds_left == 0
    }

    /// Runs the task for one scheduler step: one acquire attempt, one
    /// increment, or one release. A failed acquire attempt changes
    /// nothing — the task yields the core and will retry when it is next
    /// scheduled.
    pub fn step(&mut self, m: &mut Mutex<i32>)
        requires
            old(self).wf(),
            old(m).wf(),
            old(self).is_holding() ==> old(m).locked(),
            old(self).is_holding() && !old(self).has_bumped() ==> old(self).guard_value()
                < i32::MAX,
        ensures
            final(self).wf(),
            final(m).wf(),
            old(self).remaining() == 0 ==> *final(self) == *old(self) && *final(m) == *old(m),
            old(self).remaining() > 0 && !old(self).is_holding() && old(m).locked()
                ==> *final(self) == *old(self) && *final(m) == *old(m),
            old(self).remaining() > 0 && !old(self).is_holding() && !old(m).locked()
                ==> (final(self).is_holding() && !final(self).has_bumped()
                    && final(self).guard_value() == old(m).value()
                    && final(self).remaining() == old(self).remaining()
                    && final(m).locked()),
            old(self).remaining() > 0 && old(self).is_holding() && !old(self).has_bumped()
                ==> (final(self).is_holding() && final(self).has_bumped()
                    && final(self).guard_value() == old(self).guard_value() + 1
                    && final(self).remaining() == old(self).remaining()
                    && *final(m) == *old(m)),
            old(self).remaining() > 0 && old(self).is_holding() && old(self).has_bumped()
                ==> (!final(self).is_holding() && !final(self).has_bumped()
                    && final(self).remaining() == old(self).remaining() - 1
                    && !final(m).locked() && final(m).value() == old(self).guard_value()),
    {
        if self.rounds_left == 0 {
            return ;
        }
        match self.holding.take() {
            None => {
                match m.try_lock() {
                    Some(guard) => {
                        self.holding = Some(guard);
                        self.bumped = false;
                    },
                    None => {
                        // The lock is taken: yield, retry when next scheduled.
                    },
                }
            },
            Some(mut guard) => {
                if !self.bumped {
                    let v = *guard.deref();
                    *guard.deref_mut() = v + 1;
                    self.holding = Some(guard);
                    self.bumped = true;
                } else {
                    m.unlock(guard);
                    self.bumped = false;
                    self.rounds_left = self.rounds_left - 1;
                }
            },
        }
    }
}

/// Increments applied so far by a task that started with `rounds`
/// rounds: finished rounds, plus the one of the round in flight once it
/// has landed.
pub open spec fn done_by(t: &IncrementTask, rounds: nat) -> int {
    rounds - t.remaining() + if t.is_holding() && t.has_bumped() {
        1int
    } else {
        0int
    }
}

/// The protected value as an observer that could stop the world would
/// see it: in the hands of whichever task holds the lock, otherwise in
/// the mutex.
pub open spec fn observed(t1: &IncrementTask, t2: &IncrementTask, m: &Mutex<i32>) -> int {
    if t1.is_holding() {
        t1.guard_value() as int
    } else if t2.is_holding() {
        t2.guard_value() as int
    } else {
        m.value() as int
    }
}

/// Spec-level image of one task's state: rounds left, whether it holds
/// the lock, and whether the increment of the round in flight has
/// landed.
pub struct SimTask {
    pub remaining: nat,
    pub holding: bool,
    pub bumped: bool,
}

/// Spec-level image of the whole machine: both tasks, the lock flag and
/// the one logical protected value.
pub struct SimState {
    pub task1: SimTask,
    pub task2: SimTask,
    pub locked: bool,
    pub value: int,
}

/// The machine before any step runs: both tasks fresh, the lock free,
/// the protected value at `init`.
pub open spec fn sim_init(rounds: nat, init: int) -> SimState {
    SimState {
        task1: SimTask { remaining: rounds, holding: false, bumped: false },
        task2: SimTask { remaining: rounds, holding: false, bumped: false },
        locked: false,
        value: init,
    }
}

/// One scheduler step of a single task against the lock flag and the
/// protected value: acquire when free, then increment, then release and
/// finish the round; a finished task, or one whose acquire attempt
/// finds the lock taken, changes nothing.
pub open spec fn sim_task_step(t: SimTask, locked: bool, value: int) -> (SimTask, bool, int) {
    if t.remaining == 0 {
        (t, locked, value)
    } else if !t.holding {
        if locked {
            (t, locked, value)
        } else {
            (SimTask { remaining: t.remaining, holding: true, bumped: false }, true, value)
        }
    } else if !t.bumped {
        (SimTask { remaining: t.remaining, holding: true, bumped: true }, locked, value + 1)
    } else {
        (
            SimTask { remaining: (t.remaining - 1) as nat, holding: false, bumped: false },
            false,
            value,
        )
    }
}

/// One scheduler step of the whole machine: `first` names the task that
/// runs.
pub open spec fn sim_step(s: SimState, first: bool) -> SimState {
    if first {
        let (t, l, v) = sim_task_step(s.task1, s.locked, s.value);
        SimState { task1: t, task2: s.task2, locked: l, value: v }
    } else {
        let (t, l, v) = sim_task_step(s.task2, s.locked, s.value);
        SimState { task1: s.task1, task2: t, locked: l, value: v }
    }
}

/// The machine after the whole schedule has run, step by step.
pub open spec fn sim_run(rounds: nat, init: int, schedule: Seq<bool>) -> SimState
    decreases schedule.len(),
{
    if schedule.len() == 0 {
        sim_init(rounds, init)
    } else {
        sim_step(sim_run(rounds, init, schedule.drop_last()), schedule.last())
    }
}

/// Whether the schedule lets both tasks finish all their rounds.
pub open spec fn sim_done(rounds: nat, init: int, schedule: Seq<bool>) -> bool {
    let s = sim_run(rounds, init, schedule);
    s.task1.remaining == 0 && s.task2.remaining == 0
}

/// The spec-level image of one running task.
pub open spec fn task_model(t: &IncrementTask) -> SimTask {
    SimTask { remaining: t.remaining(), holding: t.is_holding(), bumped: t.has_bumped() }
}

/// The spec-level image of the running machine.
pub open spec fn machine_model(t1: &IncrementTask, t2: &IncrementTask, m: &Mutex<i32>) -> SimState {
    SimState {
        task1: task_model(t1),
        task2: task_model(t2),
        locked: m.locked(),
        value: observed(t1, t2, m),
    }
}

/// What every interleaving preserves: both tasks and the mutex are well
/// formed, the lock is held by at most one task and exactly when one of
/// them holds it, and the observed value accounts for precisely the
/// increments applied so far.
pub open spec fn interleaving_inv(
    t1: &IncrementTask,
    t2: &IncrementTask,
    m: &Mutex<i32>,
    rounds: nat,
    init: int,
) -> bool {
    &&& t1.wf()
    &&& t2.wf()
    &&& m.wf()
    &&& t1.remaining() <= rounds
    &&& t2.remaining() <= rounds
    &&& (m.locked() <==> (t1.is_holding() || t2.is_holding()))
    &&& !(t1.is_holding() && t2.is_holding())
    &&& observed(t1, t2, m) == init + done_by(t1, rounds) + done_by(t2, rounds)
}

/// Two logical tasks each perform `rounds` rounds of acquire, increment,
/// release on the shared mutex, interleaved as `schedule` dictates: entry
/// `i` names the task that runs step `i`. The returned flag equals the
/// spec-level replay of the schedule ([`sim_done`]), so the driver owes
/// completion exactly where the schedule provides it; and whenever both
/// tasks finish, the protected value has grown by exactly `2 * rounds` —
/// no interleaving, however fine, can lose or double an increment.
pub fn run_increment_tasks(m: &mut Mutex<i32>, rounds: u32, schedule: &Vec<bool>) -> (finished:
    bool)
    requires
        old(m).wf(),
        !old(m).locked(),
        old(m).value() + 2 * (rounds as int) <= i32::MAX,
    ensures
        final(m).wf(),
        finished == sim_done(rounds as nat, old(m).value() as int, schedule@),
        finished ==> !final(m).locked() && final(m).value() == old(m).value() + 2 * (
        rounds as int),
{
    let ghost init: int = m.value() as int;
    let mut t1 = IncrementTask::new(rounds);
    let mut t2 = IncrementTask::new(rounds);
    let mut i: usize = 0;
    while i < schedule.len()
        invariant
            interleaving_inv(&t1, &t2, m, rounds as nat, init),
            init == old(m).value(),
            init + 2 * (rounds as int) <= i32::MAX,
            i <= schedule.len(),
            machine_model(&t1, &t2, m) == sim_run(rounds as nat, init, schedule@.subrange(0, i as int)),
        decreases schedule.len() - i,
    {
        if schedule[i] {
            t1.step(m);
        } else {
            t2.step(m);
        }
        proof {
            assert(schedule@.subrange(0, i + 1 as int).drop_last() =~= schedule@.subrange(
                0,
                i as int,
            ));
            assert(schedule@.subrange(0, i + 1 as int).last() == schedule@[i as int]);
        }
        i = i + 1;
    }
    proof {
        assert(schedule@.subrange(0, schedule@.len() as int) =~= schedule@);
    }
    t1.is_done() && t2.is_done()
}

} // verus!
