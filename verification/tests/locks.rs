use rust_debugging_locks::acquisition::TryOutcome;
use rust_debugging_locks::debugging_locks::sort_try;
use rust_debugging_locks::debugging_locks::Attempt;
use rust_debugging_locks::debugging_locks::RwLockWrapped;
use rust_debugging_locks::debugging_locks::Tried;
use rust_debugging_locks::diagnostics::PermitKind;
use rust_debugging_locks::diagnostics::Level;
use rust_debugging_locks::stacktrace_util::is_library_frame;
use rust_debugging_locks::stacktrace_util::Frame;
use rust_debugging_locks::stacktrace_util::Stracktrace;
use rust_debugging_locks::stacktrace_util::ThreadInfo;
use rust_debugging_locks::stacktrace_util::FRAMES_LIMIT;
use std::sync::PoisonError;
use std::sync::TryLockError;

fn main_thread() -> ThreadInfo {
    ThreadInfo { thread_id: "ThreadId(1)".to_string(), name: "main".to_string() }
}

/// Has the lock grant a permit to one whose trace is `caller`.
fn grant<T>(lock: &RwLockWrapped<T>, caller: Option<Stracktrace>) {
    let granted: Tried<()> = Tried::Acquired(());
    let settled = lock.settle(PermitKind::Write, granted, 0, 0, &main_thread(), caller);
    assert!(matches!(settled, Attempt::Acquired(())));
}

/// The lines that a blocked reader without a trace of its own gets to see of
/// the latest holder.
fn holder_lines<T>(lock: &RwLockWrapped<T>) -> Vec<String> {
    let blocked: Tried<()> = Tried::WouldBlock;
    let settled = lock.settle(PermitKind::Read, blocked, 20, 0, &main_thread(), None);
    let records = match settled {
        Attempt::Blocked(pause) => pause.records.unwrap(),
        _ => panic!("the try was blocked"),
    };
    let mut lines = Vec::new();
    let mut inside = false;
    for record in &records[1..] {
        if !record.message.contains(">\t  ") {
            inside = record.message.ends_with("current lock holder:");
        } else if inside {
            lines.push(record.message.clone());
        }
    }
    lines
}

fn trace_of_holder(tag: &str, method: &str) -> Stracktrace {
    Stracktrace {
        frames: vec![Frame { method: method.to_string(), filename: "holder.rs".to_string(), line_no: 11 }],
        hash: tag.to_string(),
    }
}

fn setup_trace() -> Stracktrace {
    Stracktrace {
        frames: vec![Frame { method: "app::setup".to_string(), filename: "setup.rs".to_string(), line_no: 5 }],
        hash: "NFBZP".to_string(),
    }
}

#[test]
fn a_new_lock_holds_its_value() {
    let lock = RwLockWrapped::new(41);
    assert_eq!(*lock.to_rwlock().read().unwrap(), 41);
    *lock.to_rwlock().write().unwrap() += 1;
    assert_eq!(*lock.try_read().unwrap(), 42);
}

#[test]
fn a_new_lock_has_a_bounded_trace_or_none() {
    let lock = RwLockWrapped::new(String::from("value"));
    match lock.stack_created() {
        Some(trace) => {
            assert!(!trace.frames.is_empty());
            assert!(trace.frames.len() <= FRAMES_LIMIT);
        }
        None => {}
    }
    assert!(holder_lines(&lock).is_empty());
}

#[test]
fn a_lock_without_a_trace_works_all_the_same() {
    let lock = RwLockWrapped::with_identity(0, None);
    assert_eq!(*lock.stack_created(), None);
    match lock.write_attempt(0, 0, &main_thread(), is_library_frame) {
        Attempt::Acquired(mut guard) => *guard = 9,
        _ => panic!("the lock is free"),
    }
    assert_eq!(*lock.try_read().unwrap(), 9);
}

#[test]
fn a_lock_keeps_the_trace_it_was_made_with() {
    let lock = RwLockWrapped::with_identity(0, Some(setup_trace()));
    assert_eq!(*lock.stack_created(), Some(setup_trace()));
    assert!(holder_lines(&lock).is_empty());
}

#[test]
fn the_default_lock_holds_the_default_value() {
    let lock: RwLockWrapped<i32> = Default::default();
    assert_eq!(*lock.try_read().unwrap(), 0);
    let words: RwLockWrapped<String> = RwLockWrapped::default();
    assert_eq!(*words.try_read().unwrap(), "");
}

#[test]
fn single_tries_follow_the_wrapped_lock() {
    let lock = RwLockWrapped::new(1);
    {
        let first = lock.try_read().unwrap();
        let second = lock.try_read().unwrap();
        assert_eq!(*first + *second, 2);
        assert!(matches!(lock.try_write(), Err(TryLockError::WouldBlock)));
    }
    {
        let mut writer = lock.try_write().unwrap();
        *writer = 5;
        assert!(matches!(lock.try_read(), Err(TryLockError::WouldBlock)));
        assert!(matches!(lock.try_write(), Err(TryLockError::WouldBlock)));
    }
    assert_eq!(*lock.try_read().unwrap(), 5);
}

#[test]
fn a_free_lock_grants_the_exclusive_permit_at_the_first_try() {
    let lock = RwLockWrapped::new(0);
    let tried = lock.write_attempt(0, 0, &main_thread(), is_library_frame);
    assert_eq!(tried.kind(), TryOutcome::Acquired);
    match tried {
        Attempt::Acquired(mut guard) => *guard = 7,
        _ => panic!("the lock is free"),
    }
    assert_eq!(*lock.to_rwlock().read().unwrap(), 7);
}

#[test]
fn readers_share_the_lock() {
    let lock = RwLockWrapped::new(3);
    let held = lock.try_read().unwrap();
    match lock.read_attempt(0, 0, &main_thread(), is_library_frame) {
        Attempt::Acquired(guard) => assert_eq!(*guard + *held, 6),
        _ => panic!("readers share the lock"),
    };
}

#[test]
fn a_blocked_writer_gets_its_pause() {
    let lock = RwLockWrapped::with_identity(0, Some(setup_trace()));
    let _held = lock.try_read().unwrap();
    match lock.write_attempt(0, 1_000, &main_thread(), is_library_frame) {
        Attempt::Blocked(pause) => {
            assert_eq!(pause.records, None);
            assert_eq!(pause.pause_micros, 100);
            assert_eq!(pause.next_attempt, 1);
        }
        _ => panic!("the lock is held"),
    };
    match lock.write_attempt(100, 1_000, &main_thread(), is_library_frame) {
        Attempt::Blocked(pause) => {
            assert_eq!(pause.records, None);
            assert_eq!(pause.pause_micros, 10_000);
            assert_eq!(pause.next_attempt, 101);
        }
        _ => panic!("the lock is held"),
    };
}

#[test]
fn a_blocked_writer_reports_in_the_early_burst() {
    let lock = RwLockWrapped::with_identity(0, Some(setup_trace()));
    let _held = lock.try_read().unwrap();
    let tried = lock.write_attempt(20, 2_500_000, &main_thread(), |_name: &str| true);
    assert_eq!(tried.kind(), TryOutcome::WouldBlock);
    match tried {
        Attempt::Blocked(pause) => {
            assert_eq!(pause.pause_micros, 100);
            assert_eq!(pause.next_attempt, 21);
            let records = pause.records.unwrap();
            assert_eq!(records.len(), 3);
            assert_eq!(records[0].level, Level::Info);
            assert_eq!(
                records[0].message,
                "WRITER BLOCKED on thread main:ThreadId(1) for 2.5ms (locktag NFBZP)"
            );
            assert_eq!(records[1].message, " |NFBZP>\trwlock constructed here:");
            assert_eq!(records[2].message, " |NFBZP>\t  setup.rs:app::setup:5");
        }
        _ => panic!("the lock is held"),
    };
}

#[test]
fn a_blocked_reader_reports_in_a_long_stall() {
    let lock = RwLockWrapped::with_identity(0, None);
    let _held = lock.try_write().unwrap();
    match lock.read_attempt(500, 9_000_000_000, &main_thread(), |_name: &str| true) {
        Attempt::Blocked(pause) => {
            assert_eq!(pause.pause_micros, 100_000);
            assert_eq!(pause.next_attempt, 501);
            let records = pause.records.unwrap();
            assert_eq!(records.len(), 1);
            assert_eq!(
                records[0].message,
                "READER BLOCKED on thread main:ThreadId(1) for 9s (locktag n/a)"
            );
        }
        _ => panic!("the lock is held"),
    };
}

#[test]
fn a_wait_reports_and_ends_with_the_permit() {
    let lock = RwLockWrapped::with_identity(0, None);
    let mut holder = Some(lock.try_write().unwrap());
    let mut attempt: u64 = 0;
    let mut tries = 0;
    let mut reports = 0;
    let granted = loop {
        if tries == 30 {
            holder = None;
        }
        tries += 1;
        match lock.write_attempt(attempt, tries * 100_000, &main_thread(), is_library_frame) {
            Attempt::Acquired(guard) => break guard,
            Attempt::Poisoned(_) => panic!("nobody panicked"),
            Attempt::Blocked(pause) => {
                if let Some(records) = pause.records {
                    assert!(records[0].message.starts_with("WRITER BLOCKED on thread main:ThreadId(1) for "));
                    reports += 1;
                }
                attempt = pause.next_attempt;
            }
        }
    };
    assert!(holder.is_none());
    assert_eq!(*granted, 0);
    assert_eq!(tries, 31);
    assert_eq!(attempt, 30);
    assert!(reports >= 1);
    assert_eq!(reports, 5);
}

#[test]
fn a_granted_permit_without_a_trace_clears_the_latest_holder() {
    let lock = RwLockWrapped::with_identity(0, None);
    grant(&lock, Some(trace_of_holder("AAAA", "app::first")));
    match lock.read_attempt(0, 0, &main_thread(), |_name: &str| true) {
        Attempt::Acquired(guard) => assert_eq!(*guard, 0),
        _ => panic!("the lock is free"),
    };
    assert!(holder_lines(&lock).is_empty());
}

#[test]
fn a_permit_is_sorted_as_acquired() {
    let tried: Result<u8, TryLockError<u8>> = Ok(7);
    match sort_try(tried) {
        Tried::Acquired(permit) => assert_eq!(permit, 7),
        _ => panic!("a permit was granted"),
    }
}

#[test]
fn a_poison_error_is_sorted_as_poisoned() {
    let tried: Result<u8, TryLockError<u8>> = Err(TryLockError::Poisoned(PoisonError::new(7)));
    match sort_try(tried) {
        Tried::Poisoned(poison) => assert_eq!(poison.into_inner(), 7),
        _ => panic!("the lock is poisoned"),
    }
}

#[test]
fn a_try_that_would_block_is_sorted_as_such() {
    let tried: Result<u8, TryLockError<u8>> = Err(TryLockError::WouldBlock);
    assert!(matches!(sort_try(tried), Tried::WouldBlock));
}

#[test]
fn tries_of_a_real_lock_are_sorted() {
    let lock = RwLockWrapped::new(1);
    let held = match sort_try(lock.try_read()) {
        Tried::Acquired(guard) => guard,
        _ => panic!("the lock is free"),
    };
    assert!(matches!(sort_try(lock.try_write()), Tried::WouldBlock));
    assert_eq!(*held, 1);
}

#[test]
fn poison_at_the_first_try_is_returned_at_once() {
    let lock = RwLockWrapped::with_identity(0, None);
    let poisoned: Tried<u8> = Tried::Poisoned(PoisonError::new(3));
    let settled = lock.settle(PermitKind::Write, poisoned, 0, 0, &main_thread(), None);
    assert_eq!(settled.kind(), TryOutcome::Poisoned);
    match settled {
        Attempt::Poisoned(poison) => assert_eq!(poison.into_inner(), 3),
        _ => panic!("the lock is poisoned"),
    }
    assert!(holder_lines(&lock).is_empty());
}

#[test]
fn poison_is_returned_at_any_attempt_without_a_report() {
    let lock = RwLockWrapped::with_identity(0, None);
    for attempt in [0u64, 20, 24, 100, 500, u64::MAX] {
        let poisoned: Tried<u8> = Tried::Poisoned(PoisonError::new(3));
        let caller = Some(trace_of_holder("CCCC", "app::caller"));
        let settled = lock.settle(PermitKind::Read, poisoned, attempt, 1_000_000, &main_thread(), caller);
        assert!(matches!(settled, Attempt::Poisoned(_)));
    }
}

#[test]
fn a_settled_permit_is_handed_on() {
    let lock = RwLockWrapped::with_identity(0, None);
    let granted: Tried<&str> = Tried::Acquired("permit");
    match lock.settle(PermitKind::Read, granted, 3, 0, &main_thread(), None) {
        Attempt::Acquired(permit) => assert_eq!(permit, "permit"),
        _ => panic!("a permit was granted"),
    }
}

#[test]
fn a_settled_block_gives_the_pause_that_is_due() {
    let lock = RwLockWrapped::with_identity(0, Some(setup_trace()));
    let blocked: Tried<u8> = Tried::WouldBlock;
    match lock.settle(PermitKind::Read, blocked, 499, 3_000_000_000, &main_thread(), None) {
        Attempt::Blocked(pause) => {
            assert_eq!(pause.records, None);
            assert_eq!(pause.pause_micros, 10_000);
            assert_eq!(pause.next_attempt, 500);
        }
        _ => panic!("the lock is held"),
    }
    let blocked: Tried<u8> = Tried::WouldBlock;
    let caller = Some(trace_of_holder("CCCC", "app::caller"));
    match lock.settle(PermitKind::Read, blocked, 24, 3_000_000_000, &main_thread(), caller) {
        Attempt::Blocked(pause) => {
            let records = pause.records.unwrap();
            let lines: Vec<&str> = records.iter().map(|record| record.message.as_str()).collect();
            assert_eq!(
                lines,
                vec![
                    "READER BLOCKED on thread main:ThreadId(1) for 3s (locktag NFBZP)",
                    " |NFBZP>\tblocking call:",
                    " |NFBZP>\t  holder.rs:app::caller:11",
                    " |NFBZP>\trwlock constructed here:",
                    " |NFBZP>\t  setup.rs:app::setup:5",
                ]
            );
            assert_eq!(pause.pause_micros, 100);
            assert_eq!(pause.next_attempt, 25);
        }
        _ => panic!("the lock is held"),
    }
}

#[test]
fn the_record_shows_the_latest_of_the_holders() {
    let lock = RwLockWrapped::with_identity(0, None);
    assert!(holder_lines(&lock).is_empty());
    grant(&lock, Some(trace_of_holder("AAAA", "app::first")));
    assert_eq!(holder_lines(&lock), vec![" |n/a>\t  holder.rs:app::first:11"]);
    grant(&lock, Some(trace_of_holder("BBBB", "app::second")));
    assert_eq!(holder_lines(&lock), vec![" |n/a>\t  holder.rs:app::second:11"]);
    grant(&lock, Some(trace_of_holder("CCCC", "app::third")));
    grant(&lock, Some(trace_of_holder("DDDD", "app::fourth")));
    assert_eq!(holder_lines(&lock), vec![" |n/a>\t  holder.rs:app::fourth:11"]);
}

#[test]
fn a_holder_without_a_trace_empties_the_record() {
    let lock = RwLockWrapped::with_identity(0, None);
    grant(&lock, Some(trace_of_holder("AAAA", "app::first")));
    grant(&lock, None);
    assert!(holder_lines(&lock).is_empty());
    grant(&lock, Some(trace_of_holder("BBBB", "app::second")));
    grant(&lock, None);
    assert!(holder_lines(&lock).is_empty());
}

#[test]
fn blocked_and_poisoned_tries_leave_the_record_alone() {
    let lock = RwLockWrapped::with_identity(0, None);
    grant(&lock, Some(trace_of_holder("AAAA", "app::first")));
    let blocked: Tried<u8> = Tried::WouldBlock;
    lock.settle(PermitKind::Write, blocked, 20, 0, &main_thread(), Some(trace_of_holder("EEEE", "app::waiting")));
    let poisoned: Tried<u8> = Tried::Poisoned(PoisonError::new(1));
    lock.settle(PermitKind::Write, poisoned, 21, 0, &main_thread(), Some(trace_of_holder("FFFF", "app::failing")));
    assert_eq!(holder_lines(&lock), vec![" |n/a>\t  holder.rs:app::first:11"]);
}

#[test]
fn giving_a_permit_back_leaves_the_record_alone() {
    let lock = RwLockWrapped::with_identity(0, None);
    grant(&lock, Some(trace_of_holder("AAAA", "app::first")));
    {
        let _held = lock.try_write().unwrap();
    }
    assert_eq!(holder_lines(&lock), vec![" |n/a>\t  holder.rs:app::first:11"]);
}

#[test]
fn the_one_who_waits_sees_the_latest_holder() {
    let lock = RwLockWrapped::with_identity(0, Some(setup_trace()));
    grant(&lock, Some(trace_of_holder("AAAA", "app::first")));
    grant(&lock, Some(trace_of_holder("BBBB", "app::second")));
    let _held = lock.try_write().unwrap();
    match lock.read_attempt(22, 7_000, &main_thread(), |_name: &str| true) {
        Attempt::Blocked(pause) => {
            let records = pause.records.unwrap();
            let lines: Vec<&str> = records.iter().map(|record| record.message.as_str()).collect();
            assert_eq!(
                lines,
                vec![
                    "READER BLOCKED on thread main:ThreadId(1) for 7µs (locktag NFBZP)",
                    " |NFBZP>\tcurrent lock holder:",
                    " |NFBZP>\t  holder.rs:app::second:11",
                    " |NFBZP>\trwlock constructed here:",
                    " |NFBZP>\t  setup.rs:app::setup:5",
                ]
            );
        }
        _ => panic!("the lock is held"),
    };
}

#[test]
fn the_record_is_shared_by_all_who_use_the_lock() {
    let lock = std::sync::Arc::new(RwLockWrapped::with_identity(0, None));
    let other = lock.clone();
    grant(&other, Some(trace_of_holder("AAAA", "app::first")));
    assert_eq!(holder_lines(&lock), vec![" |n/a>\t  holder.rs:app::first:11"]);
}

fn shared_between_threads<L: Send + Sync>(_lock: &L) {}

#[test]
fn the_lock_can_be_shared_between_threads() {
    let lock = std::sync::Arc::new(RwLockWrapped::new(vec![1u8, 2, 3]));
    shared_between_threads(&lock);
    shared_between_threads(&*lock);
}

#[test]
fn the_kind_of_an_attempt_is_told_without_taking_it() {
    let granted: Attempt<u8> = Attempt::Acquired(1);
    assert_eq!(granted.kind(), TryOutcome::Acquired);
    let poisoned: Attempt<u8> = Attempt::Poisoned(PoisonError::new(1));
    assert_eq!(poisoned.kind(), TryOutcome::Poisoned);
}

#[test]
fn the_kind_of_a_try_is_told_without_taking_it() {
    let granted: Tried<u8> = Tried::Acquired(1);
    assert_eq!(granted.kind(), TryOutcome::Acquired);
    let poisoned: Tried<u8> = Tried::Poisoned(PoisonError::new(1));
    assert_eq!(poisoned.kind(), TryOutcome::Poisoned);
    let blocked: Tried<u8> = Tried::WouldBlock;
    assert_eq!(blocked.kind(), TryOutcome::WouldBlock);
}

#[test]
fn serializing_through_the_lock_equals_serializing_the_value() {
    let value: Vec<(String, u32)> = vec![("one".to_string(), 1), ("two".to_string(), 2)];
    let lock = RwLockWrapped::new(value.clone());
    let through = match lock.read_attempt(0, 0, &main_thread(), is_library_frame) {
        Attempt::Acquired(guard) => serde_json::to_string(&*guard).unwrap(),
        _ => panic!("the lock is free"),
    };
    assert_eq!(through, serde_json::to_string(&value).unwrap());
    assert_eq!(through, "[[\"one\",1],[\"two\",2]]");
}
