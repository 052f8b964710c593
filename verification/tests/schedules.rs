use nds::mutex::Mutex;
use nds::tasks::run_increment_tasks;

fn final_value(m: &mut Mutex<i32>) -> i32 {
    let g = m.try_lock().expect("both tasks done: the lock must be free");
    *g.deref()
}

#[test]
fn two_tasks_thousand_rounds_alternating() {
    let mut m = Mutex::new(0i32);
    // Strict alternation: a forced yield between every two steps.
    let schedule: Vec<bool> = (0..12000).map(|i| i % 2 == 0).collect();
    let finished = run_increment_tasks(&mut m, 1000, &schedule);
    assert!(finished);
    assert_eq!(final_value(&mut m), 2000);
}

#[test]
fn two_tasks_sequential_schedule() {
    let mut m = Mutex::new(0i32);
    // First task runs to completion, then the second.
    let mut schedule = vec![true; 3000];
    schedule.extend(vec![false; 3000]);
    let finished = run_increment_tasks(&mut m, 1000, &schedule);
    assert!(finished);
    assert_eq!(final_value(&mut m), 2000);
}

#[test]
fn ragged_interleaving_still_counts_exactly() {
    let mut m = Mutex::new(7i32);
    // An uneven pattern: bursts of each task, at every granularity.
    let schedule: Vec<bool> = (0..2000).map(|i| (i / 3) % 2 == 0 || i % 7 == 0).collect();
    let finished = run_increment_tasks(&mut m, 100, &schedule);
    assert!(finished);
    assert_eq!(final_value(&mut m), 207);
}

#[test]
fn short_schedule_does_not_finish() {
    let mut m = Mutex::new(0i32);
    let schedule = vec![true];
    let finished = run_increment_tasks(&mut m, 1, &schedule);
    assert!(!finished);
    // The one scheduled step acquired the lock; the task was never
    // scheduled again to release it.
    assert!(m.try_lock().is_none());
}

#[test]
fn zero_rounds_finish_at_once() {
    let mut m = Mutex::new(123i32);
    let schedule = vec![true, false];
    let finished = run_increment_tasks(&mut m, 0, &schedule);
    assert!(finished);
    assert_eq!(final_value(&mut m), 123);
}
