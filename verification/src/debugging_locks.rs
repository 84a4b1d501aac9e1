//! The lock wrapper: a reader-writer lock of the standard library with the
//! trace of the place where it was made and a record of its latest holder.
//!
//! A call of `read_attempt` or `write_attempt` is one try for a permit with
//! all that belongs to it. It never waits: where the lock is held elsewhere
//! it hands back what to log and how long to pause, and the caller pauses and
//! calls again.

use crate::acquisition::backoff_after;
use crate::acquisition::backoff_of;
use crate::acquisition::trace_wanted;
use crate::acquisition::wants_trace;
use crate::acquisition::Backoff;
use crate::acquisition::TryOutcome;
use crate::diagnostics::blocked_records;
use crate::diagnostics::duration_text;
use crate::diagnostics::handle_blocked_reader_event;
use crate::diagnostics::handle_blocked_writer_event;
use crate::diagnostics::LogRecord;
use crate::diagnostics::LogRecordView;
use crate::diagnostics::PermitKind;
use crate::stacktrace_util::backtrack_frame;
use crate::stacktrace_util::is_backtrack;
use crate::stacktrace_util::is_library_frame;
use crate::stacktrace_util::BacktrackError;
use crate::stacktrace_util::Stracktrace;
use crate::stacktrace_util::StracktraceView;
use crate::stacktrace_util::ThreadInfo;
use crate::stacktrace_util::ThreadInfoView;
use std::sync::Arc;
use std::sync::Mutex;
use std::sync::PoisonError;
use std::sync::RwLock;
use std::sync::RwLockReadGuard;
use std::sync::RwLockWriteGuard;
use std::sync::TryLockError;
use vstd::prelude::*;

verus! {

/// `std::sync::RwLock`, carried as it is: nothing of its state is visible.
#[verifier::external_type_specification]
#[verifier::external_body]
#[verifier::reject_recursive_types(T)]
pub struct ExRwLock<T: ?Sized>(RwLock<T>);

/// `std::sync::RwLockReadGuard`, the shared permit, carried as it is.
#[verifier::external_type_specification]
#[verifier::external_body]
#[verifier::reject_recursive_types(T)]
pub struct ExRwLockReadGuard<'a, T: ?Sized>(RwLockReadGuard<'a, T>);

/// `std::sync::RwLockWriteGuard`, the exclusive permit, carried as it is.
#[verifier::external_type_specification]
#[verifier::external_body]
#[verifier::reject_recursive_types(T)]
pub struct ExRwLockWriteGuard<'a, T: ?Sized + 'a>(RwLockWriteGuard<'a, T>);

/// `std::sync::PoisonError`, the error of a poisoned lock with the permit
/// inside, carried as it is.
#[verifier::external_type_specification]
#[verifier::external_body]
#[verifier::reject_recursive_types(T)]
pub struct ExPoisonError<T>(PoisonError<T>);

/// `std::sync::TryLockError`, the error of a try that was granted no permit,
/// carried as it is; `poison_of` tells its variants apart.
#[verifier::external_type_specification]
#[verifier::external_body]
#[verifier::reject_recursive_types(T)]
pub struct ExTryLockError<T>(TryLockError<T>);

/// `std::sync::Mutex`, carried as it is: nothing of what it guards is
/// visible.
#[verifier::external_type_specification]
#[verifier::external_body]
#[verifier::reject_recursive_types(T)]
pub struct ExMutex<T: ?Sized>(Mutex<T>);

/// `std::sync::RwLock::new` makes a lock around the value. Nothing is
/// claimed of the lock.
pub assume_specification<T>[ RwLock::<T>::new ](t: T) -> (lock: RwLock<T>)
;

/// `std::sync::RwLock::try_read` tries for the shared permit without
/// blocking. What it comes to depends on the other holders: nothing is
/// claimed of it.
pub assume_specification<'a, T: ?Sized>[ RwLock::<T>::try_read ](lock: &'a RwLock<T>) -> (tried:
    Result<RwLockReadGuard<'a, T>, TryLockError<RwLockReadGuard<'a, T>>>)
;

/// `std::sync::RwLock::try_write` tries for the exclusive permit without
/// blocking. What it comes to depends on the other holders: nothing is
/// claimed of it.
pub assume_specification<'a, T: ?Sized>[ RwLock::<T>::try_write ](lock: &'a RwLock<T>) -> (tried:
    Result<RwLockWriteGuard<'a, T>, TryLockError<RwLockWriteGuard<'a, T>>>)
;

/// `std::sync::Mutex::new` makes a mutex around the value. Nothing is claimed
/// of the mutex.
pub assume_specification<T>[ Mutex::<T>::new ](t: T) -> (mutex: Mutex<T>)
;

/// Tells the two variants of `std::sync::TryLockError` apart: the poison
/// error where the lock is poisoned, nothing where the try would have
/// blocked.
#[verifier::external_body]
fn poison_of<G>(error: TryLockError<G>) -> (poison: Option<PoisonError<G>>) {
    match error {
        TryLockError::Poisoned(poison) => Some(poison),
        TryLockError::WouldBlock => None,
    }
}

/// Puts the trace into the cell in place of what it held, under the cell's
/// own `std::sync::Mutex::lock`. The mutex is given back before the call
/// returns, so no call finds it held by its own thread. A poisoned mutex is
/// used as it is.
#[verifier::external_body]
fn holder_store(cell: &Mutex<Option<Stracktrace>>, holder: Option<Stracktrace>) {
    *cell.lock().unwrap_or_else(PoisonError::into_inner) = holder;
}

/// Hands out a copy of what the cell holds, taken under the cell's own
/// `std::sync::Mutex::lock`. Other threads write to the cell: nothing is
/// claimed of what is found. The mutex is given back before the call
/// returns. A poisoned mutex is used as it is.
#[verifier::external_body]
fn holder_load(cell: &Mutex<Option<Stracktrace>>) -> (holder: Option<Stracktrace>) {
    cell.lock().unwrap_or_else(PoisonError::into_inner).clone()
}

/// What a try of the wrapped lock came to, with what it handed out.
#[verifier::reject_recursive_types(G)]
pub enum Tried<G> {
    /// The permit.
    Acquired(G),
    /// The poison error of the lock, with the permit inside.
    Poisoned(PoisonError<G>),
    /// The lock is held elsewhere.
    WouldBlock,
}

impl<G> Tried<G> {
    /// What the try came to, without what it handed out.
    pub open spec fn outcome(self) -> TryOutcome {
        match self {
            Tried::Acquired(_) => TryOutcome::Acquired,
            Tried::Poisoned(_) => TryOutcome::Poisoned,
            Tried::WouldBlock => TryOutcome::WouldBlock,
        }
    }

    /// Says what the try came to, without what it handed out.
    pub fn kind(&self) -> (outcome: TryOutcome)
        ensures
            outcome == self.outcome(),
    {
        match self {
            Tried::Acquired(_) => TryOutcome::Acquired,
            Tried::Poisoned(_) => TryOutcome::Poisoned,
            Tried::WouldBlock => TryOutcome::WouldBlock,
        }
    }
}

/// Sorts what a try of the wrapped lock came to. A permit is passed on; of an
/// error the lock alone knows whether it tells of poison.
pub fn sort_try<G>(tried: Result<G, TryLockError<G>>) -> (sorted: Tried<G>)
    ensures
        tried matches Ok(permit) ==> sorted == Tried::Acquired(permit),
        tried is Err ==> !(sorted is Acquired),
{
    match tried {
        Ok(permit) => Tried::Acquired(permit),
        Err(error) => match poison_of(error) {
            Some(poison) => Tried::Poisoned(poison),
            None => Tried::WouldBlock,
        },
    }
}

/// What is due after a try that found the lock held elsewhere.
pub struct Pause {
    /// The records of the wait, where this attempt is one that is reported.
    pub records: Option<Vec<LogRecord>>,
    /// How long to pause before the next try, in microseconds.
    pub pause_micros: u64,
    /// The number of the next attempt.
    pub next_attempt: u64,
}

/// What one try for a permit came to.
#[verifier::reject_recursive_types(G)]
pub enum Attempt<G> {
    /// The permit.
    Acquired(G),
    /// The poison error of the lock, with the permit inside as the lock
    /// hands it out.
    Poisoned(PoisonError<G>),
    /// The lock is held elsewhere.
    Blocked(Pause),
}

impl<G> Attempt<G> {
    /// What the try came to, without what it handed out.
    pub open spec fn outcome(self) -> TryOutcome {
        match self {
            Attempt::Acquired(_) => TryOutcome::Acquired,
            Attempt::Poisoned(_) => TryOutcome::Poisoned,
            Attempt::Blocked(_) => TryOutcome::WouldBlock,
        }
    }

    /// Says what the try came to, without what it handed out.
    pub fn kind(&self) -> (outcome: TryOutcome)
        ensures
            outcome == self.outcome(),
    {
        match self {
            Attempt::Acquired(_) => TryOutcome::Acquired,
            Attempt::Poisoned(_) => TryOutcome::Poisoned,
            Attempt::Blocked(_) => TryOutcome::WouldBlock,
        }
    }
}

/// Whether the pause is paced and sampled as is due after failed attempt
/// `attempt`: pause and next attempt as the pacing says, and records exactly
/// where the sampling says.
pub open spec fn pause_is_paced(pause: Pause, attempt: u64) -> bool {
    backoff_of(attempt) == (Backoff {
        report: pause.records is Some,
        pause_micros: pause.pause_micros,
        next_attempt: pause.next_attempt,
    })
}

/// Whether the records are those of an acquisition that is blocked on a lock
/// with that identity, made of the wait, the thread, the trace of the caller
/// and whatever the record of the latest holder showed.
pub open spec fn records_tell(
    records: Seq<LogRecordView>,
    kind: PermitKind,
    elapsed_nanos: u64,
    thread: ThreadInfoView,
    identity: Option<StracktraceView>,
    caller: Option<StracktraceView>,
) -> bool {
    exists|holder: Option<StracktraceView>|
        records == #[trigger] blocked_records(
            kind,
            duration_text(elapsed_nanos),
            thread,
            identity,
            holder,
            caller,
        )
}

/// Whether the pause is the one that is due after failed attempt `attempt`
/// of an acquisition whose caller has the given trace, if any.
pub open spec fn pause_is_due(
    pause: Pause,
    kind: PermitKind,
    attempt: u64,
    elapsed_nanos: u64,
    thread: ThreadInfoView,
    identity: Option<StracktraceView>,
    caller: Option<StracktraceView>,
) -> bool {
    &&& pause_is_paced(pause, attempt)
    &&& pause.records matches Some(records) ==> records_tell(
        records.deep_view(),
        kind,
        elapsed_nanos,
        thread,
        identity,
        caller,
    )
}

/// Whether the pause is the one that is due after failed attempt `attempt`
/// of an acquisition whose traces leave out what the predicate names.
pub open spec fn pause_is_due_with<F: Fn(&str) -> bool>(
    pause: Pause,
    kind: PermitKind,
    attempt: u64,
    elapsed_nanos: u64,
    thread: ThreadInfoView,
    identity: Option<StracktraceView>,
    skip: &F,
) -> bool {
    &&& pause_is_paced(pause, attempt)
    &&& pause.records matches Some(records) ==> exists|caller: Option<StracktraceView>|
        {
            &&& caller matches Some(trace) ==> is_backtrack(skip, Ok(trace))
            &&& #[trigger] records_tell(
                records.deep_view(),
                kind,
                elapsed_nanos,
                thread,
                identity,
                caller,
            )
        }
}

/// A reader-writer lock that keeps the trace of the place where it was made
/// and a record of the one who was last granted a permit. The record is
/// shared by all who use the lock and may be out of date: it is written when
/// a permit is granted, not when one is given back.
#[verifier::reject_recursive_types(T)]
pub struct RwLockWrapped<T> {
    stack_created: Option<Stracktrace>,
    last_returned_lock_from: Arc<Mutex<Option<Stracktrace>>>,
    inner: RwLock<T>,
}

impl<T> RwLockWrapped<T> {
    /// The lock that is wrapped.
    pub closed spec fn wrapped(&self) -> RwLock<T> {
        self.inner
    }

    /// The trace of the place where the lock was made, if one could be taken.
    pub closed spec fn identity(&self) -> Option<StracktraceView> {
        self.stack_created.deep_view()
    }

    /// Makes a lock around the value, with the given trace as that of the
    /// place where it was made. The record of the latest holder is empty.
    pub fn with_identity(t: T, stack_created: Option<Stracktrace>) -> (lock: RwLockWrapped<T>)
        ensures
            lock.identity() == stack_created.deep_view(),
    {
        RwLockWrapped {
            stack_created,
            last_returned_lock_from: Arc::new(Mutex::new(None)),
            inner: RwLock::new(t),
        }
    }

    /// Makes a lock around the value and takes the trace of the caller,
    /// without the frames of this library. Where no trace can be taken the
    /// lock is made all the same, without one.
    pub fn new(t: T) -> (lock: RwLockWrapped<T>)
        ensures
            lock.identity() matches Some(trace) ==> {
                &&& is_backtrack(&is_library_frame, Ok(trace))
                &&& trace.well_formed()
            },
    {
        match backtrack_frame(is_library_frame) {
            Ok(stracktrace) => RwLockWrapped::with_identity(t, Some(stracktrace)),
            Err(_) => RwLockWrapped::with_identity(t, None),
        }
    }

    /// Gives the lock that is wrapped, for uses that want none of the
    /// diagnostics.
    pub fn to_rwlock(&self) -> (inner: &RwLock<T>)
        ensures
            *inner == self.wrapped(),
    {
        &self.inner
    }

    /// Gives the trace of the place where the lock was made.
    pub fn stack_created(&self) -> (created: &Option<Stracktrace>)
        ensures
            created.deep_view() == self.identity(),
    {
        &self.stack_created
    }

    /// Tries once for the shared permit, as the wrapped lock does, with no
    /// diagnostics: what comes back is what `try_read` of the wrapped lock
    /// gave.
    pub fn try_read(&self) -> (tried: Result<
        RwLockReadGuard<'_, T>,
        TryLockError<RwLockReadGuard<'_, T>>,
    >)
        ensures
            call_ensures(RwLock::<T>::try_read, (&self.wrapped(),), tried),
    {
        self.inner.try_read()
    }

    /// Tries once for the exclusive permit, as the wrapped lock does, with no
    /// diagnostics: what comes back is what `try_write` of the wrapped lock
    /// gave.
    pub fn try_write(&self) -> (tried: Result<
        RwLockWriteGuard<'_, T>,
        TryLockError<RwLockWriteGuard<'_, T>>,
    >)
        ensures
            call_ensures(RwLock::<T>::try_write, (&self.wrapped(),), tried),
    {
        self.inner.try_write()
    }

    /// Does what belongs to a try that found the lock held elsewhere.
    fn note_blocked(
        &self,
        kind: PermitKind,
        attempt: u64,
        elapsed_nanos: u64,
        thread: &ThreadInfo,
        caller: Option<Stracktrace>,
    ) -> (pause: Pause)
        ensures
            pause_is_due(
                pause,
                kind,
                attempt,
                elapsed_nanos,
                thread@,
                self.identity(),
                caller.deep_view(),
            ),
    {
        let due = backoff_after(attempt);
        let records = if due.report {
            let holder = holder_load(&self.last_returned_lock_from);
            Some(
                match kind {
                    PermitKind::Write => handle_blocked_writer_event(
                        elapsed_nanos,
                        attempt,
                        thread,
                        &self.stack_created,
                        &holder,
                        &caller,
                    ),
                    PermitKind::Read => handle_blocked_reader_event(
                        elapsed_nanos,
                        attempt,
                        thread,
                        &self.stack_created,
                        &holder,
                        &caller,
                    ),
                },
            )
        } else {
            None
        };
        Pause { records, pause_micros: due.pause_micros, next_attempt: due.next_attempt }
    }

    /// Does what belongs to the try that came to `tried`, which was attempt
    /// `attempt` of an acquisition that has waited `elapsed_nanos`
    /// nanoseconds on the given thread. `caller` is the trace of the one who
    /// tried, where one was wanted and could be taken.
    ///
    /// A permit is handed on, after the caller's trace was put in place of
    /// the latest holder; without a trace the record is emptied, so that it
    /// never shows an earlier holder as the latest. A poison error is handed
    /// on at once. Where the lock is held elsewhere, the pause that is due
    /// comes back, with the records of the wait if this attempt is one that
    /// is reported.
    pub fn settle<G>(
        &self,
        kind: PermitKind,
        tried: Tried<G>,
        attempt: u64,
        elapsed_nanos: u64,
        thread: &ThreadInfo,
        caller: Option<Stracktrace>,
    ) -> (settled: Attempt<G>)
        ensures
            match tried {
                Tried::Acquired(permit) => settled == Attempt::Acquired(permit),
                Tried::Poisoned(poison) => settled == Attempt::Poisoned(poison),
                Tried::WouldBlock => settled matches Attempt::Blocked(pause) && pause_is_due(
                    pause,
                    kind,
                    attempt,
                    elapsed_nanos,
                    thread@,
                    self.identity(),
                    caller.deep_view(),
                ),
            },
    {
        match tried {
            Tried::Acquired(permit) => {
                holder_store(&self.last_returned_lock_from, caller);
                Attempt::Acquired(permit)
            },
            Tried::Poisoned(poison) => Attempt::Poisoned(poison),
            Tried::WouldBlock => Attempt::Blocked(
                self.note_blocked(kind, attempt, elapsed_nanos, thread, caller),
            ),
        }
    }

    /// Takes the trace of the caller where one is wanted after the try: the
    /// trace that `backtrack_frame` makes with the predicate, or none where
    /// that makes none. Where no trace is wanted, none is taken.
    fn trace_if_wanted<F: Fn(&str) -> bool>(
        attempt: u64,
        outcome: TryOutcome,
        fn_skip_frame: F,
    ) -> (caller: Option<Stracktrace>)
        requires
            forall|name: &str| call_requires(fn_skip_frame, (name,)),
        ensures
            caller matches Some(trace) ==> is_backtrack(&fn_skip_frame, Ok(trace@)),
            !trace_wanted(attempt, outcome) ==> caller is None,
            trace_wanted(attempt, outcome) ==> exists|made: Result<Stracktrace, BacktrackError>|
                #[trigger] call_ensures(backtrack_frame::<F>, (fn_skip_frame,), made) && caller
                    == trace_made(made),
    {
        if wants_trace(attempt, outcome) {
            match backtrack_frame(fn_skip_frame) {
                Ok(stracktrace) => Some(stracktrace),
                Err(_) => None,
            }
        } else {
            None
        }
    }

    /// Tries once for the exclusive permit, as attempt `attempt` of an
    /// acquisition that has waited `elapsed_nanos` nanoseconds on the given
    /// thread, and does what belongs to the try as `settle` says. The trace
    /// of the caller is taken where one is wanted, and leaves out the frames
    /// that the predicate names.
    ///
    /// What the try comes to depends on who else holds the lock: what comes
    /// back is what `attempt_of` makes of what `try_write` of the wrapped lock
    /// gave.
    pub fn write_attempt<'a, F: Fn(&str) -> bool>(
        &'a self,
        attempt: u64,
        elapsed_nanos: u64,
        thread: &ThreadInfo,
        fn_skip_frame: F,
    ) -> (tried: Attempt<RwLockWriteGuard<'a, T>>)
        requires
            forall|name: &str| call_requires(fn_skip_frame, (name,)),
        ensures
            exists|raw: Result<RwLockWriteGuard<'a, T>, TryLockError<RwLockWriteGuard<'a, T>>>|
                #[trigger] call_ensures(RwLock::<T>::try_write, (&self.wrapped(),), raw)
                    && attempt_of(
                    raw,
                    tried,
                    PermitKind::Write,
                    attempt,
                    elapsed_nanos,
                    thread@,
                    self.identity(),
                    &fn_skip_frame,
                ),
            tried matches Attempt::Blocked(pause) ==> pause_is_due_with(
                pause,
                PermitKind::Write,
                attempt,
                elapsed_nanos,
                thread@,
                self.identity(),
                &fn_skip_frame,
            ),
    {
        let raw = self.inner.try_write();
        let ghost given = raw;
        let tried = sort_try(raw);
        let ghost sorted = tried;
        let caller = Self::trace_if_wanted(attempt, tried.kind(), fn_skip_frame);
        let ghost taken = caller.deep_view();
        let settled = self.settle(PermitKind::Write, tried, attempt, elapsed_nanos, thread, caller);
        proof {
            assert(settles(
                sorted,
                settled,
                PermitKind::Write,
                attempt,
                elapsed_nanos,
                thread@,
                self.identity(),
                taken,
            ));
            assert(call_ensures(RwLock::<T>::try_write, (&self.wrapped(),), given));
        }
        settled
    }

    /// Tries once for the shared permit, as attempt `attempt` of an
    /// acquisition that has waited `elapsed_nanos` nanoseconds on the given
    /// thread, and does what belongs to the try as `settle` says. The trace
    /// of the caller is taken where one is wanted, and leaves out the frames
    /// that the predicate names.
    ///
    /// What the try comes to depends on who else holds the lock: what comes
    /// back is what `attempt_of` makes of what `try_read` of the wrapped lock
    /// gave.
    pub fn read_attempt<'a, F: Fn(&str) -> bool>(
        &'a self,
        attempt: u64,
        elapsed_nanos: u64,
        thread: &ThreadInfo,
        fn_skip_frame: F,
    ) -> (tried: Attempt<RwLockReadGuard<'a, T>>)
        requires
            forall|name: &str| call_requires(fn_skip_frame, (name,)),
        ensures
            exists|raw: Result<RwLockReadGuard<'a, T>, TryLockError<RwLockReadGuard<'a, T>>>|
                #[trigger] call_ensures(RwLock::<T>::try_read, (&self.wrapped(),), raw)
                    && attempt_of(
                    raw,
                    tried,
                    PermitKind::Read,
                    attempt,
                    elapsed_nanos,
                    thread@,
                    self.identity(),
                    &fn_skip_frame,
                ),
            tried matches Attempt::Blocked(pause) ==> pause_is_due_with(
                pause,
                PermitKind::Read,
                attempt,
                elapsed_nanos,
                thread@,
                self.identity(),
                &fn_skip_frame,
            ),
    {
        let raw = self.inner.try_read();
        let ghost given = raw;
        let tried = sort_try(raw);
        let ghost sorted = tried;
        let caller = Self::trace_if_wanted(attempt, tried.kind(), fn_skip_frame);
        let ghost taken = caller.deep_view();
        let settled = self.settle(PermitKind::Read, tried, attempt, elapsed_nanos, thread, caller);
        proof {
            assert(settles(
                sorted,
                settled,
                PermitKind::Read,
                attempt,
                elapsed_nanos,
                thread@,
                self.identity(),
                taken,
            ));
            assert(call_ensures(RwLock::<T>::try_read, (&self.wrapped(),), given));
        }
        settled
    }
}

impl<T: Default> Default for RwLockWrapped<T> {
    /// Makes a lock around the default value, as `new` makes one.
    fn default() -> (lock: RwLockWrapped<T>)
        ensures
            lock.identity() matches Some(trace) ==> {
                &&& is_backtrack(&is_library_frame, Ok(trace))
                &&& trace.well_formed()
            },
    {
        RwLockWrapped::new(T::default())
    }
}

/// The trace that was made, if one was.
pub open spec fn trace_made(made: Result<Stracktrace, BacktrackError>) -> Option<Stracktrace> {
    match made {
        Ok(trace) => Some(trace),
        Err(_) => None,
    }
}

/// Whether `sorted` is what the try `raw` of a lock is sorted as: a permit is
/// passed on, and an error is never sorted as a permit.
pub open spec fn sorts<G>(raw: Result<G, TryLockError<G>>, sorted: Tried<G>) -> bool {
    &&& raw matches Ok(permit) ==> sorted == Tried::Acquired(permit)
    &&& raw is Err ==> !(sorted is Acquired)
}

/// Whether `settled` is what belongs to the try that came to `tried`: the
/// permit handed on, the poison error handed on, or the pause that is due
/// after failed attempt `attempt` of an acquisition whose caller has the
/// given trace, if any.
pub open spec fn settles<G>(
    tried: Tried<G>,
    settled: Attempt<G>,
    kind: PermitKind,
    attempt: u64,
    elapsed_nanos: u64,
    thread: ThreadInfoView,
    identity: Option<StracktraceView>,
    caller: Option<StracktraceView>,
) -> bool {
    match tried {
        Tried::Acquired(permit) => settled == Attempt::Acquired(permit),
        Tried::Poisoned(poison) => settled == Attempt::Poisoned(poison),
        Tried::WouldBlock => settled matches Attempt::Blocked(pause) && pause_is_due(
            pause,
            kind,
            attempt,
            elapsed_nanos,
            thread,
            identity,
            caller,
        ),
    }
}

/// Whether `settled` is what one attempt makes of `raw`, the try of the
/// wrapped lock: the try is sorted, the trace of the caller is taken with the
/// predicate where one is wanted and nowhere else, and what belongs to the
/// try is done.
pub open spec fn attempt_of<G, F: Fn(&str) -> bool>(
    raw: Result<G, TryLockError<G>>,
    settled: Attempt<G>,
    kind: PermitKind,
    attempt: u64,
    elapsed_nanos: u64,
    thread: ThreadInfoView,
    identity: Option<StracktraceView>,
    skip: &F,
) -> bool {
    exists|tried: Tried<G>, caller: Option<StracktraceView>|
        {
            &&& sorts(raw, tried)
            &&& caller matches Some(trace) ==> is_backtrack(skip, Ok(trace))
            &&& !trace_wanted(attempt, tried.outcome()) ==> caller is None
            &&& #[trigger] settles(
                tried,
                settled,
                kind,
                attempt,
                elapsed_nanos,
                thread,
                identity,
                caller,
            )
        }
}

} // verus!
