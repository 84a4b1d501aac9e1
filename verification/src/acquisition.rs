//! What an acquisition does after each try for a permit.
//!
//! An acquisition tries, without blocking, until the permit is granted or the
//! lock turns out to be poisoned. After a try that found the lock held
//! elsewhere it may report, pauses, and tries again. The decisions are made
//! here, from the count of failed tries and from what the try came to; the
//! one who runs the acquisition does the trying and the pausing.

use crate::stacktrace_util::StracktraceView;
use crate::thresholds_config::backoff_micros;
use crate::thresholds_config::backoff_pause;
use crate::thresholds_config::following_attempt;
use crate::thresholds_config::inspect_lock;
use crate::thresholds_config::next_attempt;
use crate::thresholds_config::should_inspect;
use vstd::prelude::*;

verus! {

/// What one try for a permit came to.
#[derive(Debug, PartialEq, Eq, Clone, Copy, Structural)]
pub enum TryOutcome {
    /// The permit was granted.
    Acquired,
    /// A holder of a permit panicked: the lock is poisoned.
    Poisoned,
    /// The lock is held elsewhere.
    WouldBlock,
}

/// What is due between a try that found the lock held elsewhere and the
/// next try.
#[derive(Debug, PartialEq, Eq, Clone, Copy, Structural)]
pub struct Backoff {
    /// Whether the wait is reported.
    pub report: bool,
    /// How long to pause, in microseconds.
    pub pause_micros: u64,
    /// The number of the next attempt.
    pub next_attempt: u64,
}

/// What follows a try.
#[derive(Debug, PartialEq, Eq, Clone, Copy, Structural)]
pub enum Step {
    /// The acquisition ends with the permit.
    Done,
    /// The acquisition ends with the poison error.
    Failed,
    /// The acquisition goes on with another try, after what is due.
    Retry(Backoff),
}

/// Where an acquisition stands.
pub enum Phase {
    /// About to try.
    Attempting,
    /// The last try found the lock held elsewhere; the pause is due.
    Blocked,
    /// Ended with the permit.
    Acquired,
    /// Ended with the poison error.
    Poisoned,
}

/// An acquisition: where it stands, and how many of its tries have failed.
pub struct Acquisition {
    pub phase: Phase,
    pub attempt: u64,
}

/// What is due after failed attempt `attempt`: a report if the attempt is
/// one that is sampled, the pause of its stage, and the attempt counted.
pub open spec fn backoff_of(attempt: u64) -> Backoff {
    Backoff {
        report: should_inspect(attempt as nat),
        pause_micros: backoff_micros(attempt as nat) as u64,
        next_attempt: following_attempt(attempt as nat) as u64,
    }
}

/// What follows a try that was attempt `attempt` and came to `outcome`.
pub open spec fn step_after(attempt: u64, outcome: TryOutcome) -> Step {
    match outcome {
        TryOutcome::Acquired => Step::Done,
        TryOutcome::Poisoned => Step::Failed,
        TryOutcome::WouldBlock => Step::Retry(backoff_of(attempt)),
    }
}

/// Says what is due after failed attempt `attempt`.
pub fn backoff_after(attempt: u64) -> (due: Backoff)
    ensures
        due == backoff_of(attempt),
{
    Backoff {
        report: inspect_lock(attempt),
        pause_micros: backoff_pause(attempt),
        next_attempt: next_attempt(attempt),
    }
}

/// Decides what follows a try that was attempt `attempt` and came to
/// `outcome`. Only a try that found the lock held elsewhere is followed by
/// another.
pub fn next_step(attempt: u64, outcome: TryOutcome) -> (step: Step)
    ensures
        step == step_after(attempt, outcome),
{
    match outcome {
        TryOutcome::Acquired => Step::Done,
        TryOutcome::Poisoned => Step::Failed,
        TryOutcome::WouldBlock => Step::Retry(backoff_after(attempt)),
    }
}

/// Whether the trace of the caller is wanted after a try that was attempt
/// `attempt` and came to `outcome`: always where a permit was granted, for
/// the record of the latest holder; where the lock is held elsewhere, if the
/// attempt is one that is reported; never where the lock is poisoned.
pub open spec fn trace_wanted(attempt: u64, outcome: TryOutcome) -> bool {
    match outcome {
        TryOutcome::Acquired => true,
        TryOutcome::Poisoned => false,
        TryOutcome::WouldBlock => should_inspect(attempt as nat),
    }
}

/// Tells whether the trace of the caller is wanted after a try that was
/// attempt `attempt` and came to `outcome`.
pub fn wants_trace(attempt: u64, outcome: TryOutcome) -> (wanted: bool)
    ensures
        wanted == trace_wanted(attempt, outcome),
{
    match outcome {
        TryOutcome::Acquired => true,
        TryOutcome::Poisoned => false,
        TryOutcome::WouldBlock => inspect_lock(attempt),
    }
}

impl Acquisition {
    /// The acquisition after a try that came to `outcome`. Only an
    /// acquisition that is about to try is moved by a try.
    pub open spec fn tried(self, outcome: TryOutcome) -> Acquisition {
        match self.phase {
            Phase::Attempting => match outcome {
                TryOutcome::Acquired => Acquisition { phase: Phase::Acquired, attempt: self.attempt },
                TryOutcome::Poisoned => Acquisition { phase: Phase::Poisoned, attempt: self.attempt },
                TryOutcome::WouldBlock => Acquisition { phase: Phase::Blocked, attempt: self.attempt },
            },
            _ => self,
        }
    }

    /// The acquisition after its pause. Only a blocked acquisition pauses; it
    /// is about to try again after, with one more failed try counted.
    pub open spec fn paused(self) -> Acquisition {
        match self.phase {
            Phase::Blocked => Acquisition {
                phase: Phase::Attempting,
                attempt: following_attempt(self.attempt as nat) as u64,
            },
            _ => self,
        }
    }

    /// The acquisition after the tries that came to `outcomes`, one after the
    /// other, with the pause after each that found the lock held elsewhere
    /// but the last.
    pub open spec fn ran(self, outcomes: Seq<TryOutcome>) -> Acquisition
        decreases outcomes.len(),
    {
        if outcomes.len() == 0 {
            self
        } else {
            self.paused().tried(outcomes[0]).ran(outcomes.drop_first())
        }
    }

    /// Whether the acquisition has ended.
    pub open spec fn ended(self) -> bool {
        self.phase is Acquired || self.phase is Poisoned
    }
}

/// A try moves an acquisition only from where it is about to try, and only
/// to where the try's outcome says; the pause moves it only from where it is
/// blocked, back to where it is about to try. An acquisition that has ended
/// stays where it is.
pub proof fn transitions_are_the_four(from: Acquisition, outcome: TryOutcome)
    ensures
        from.phase is Attempting ==> from.tried(outcome).phase == match outcome {
            TryOutcome::Acquired => Phase::Acquired,
            TryOutcome::Poisoned => Phase::Poisoned,
            TryOutcome::WouldBlock => Phase::Blocked,
        },
        !(from.phase is Attempting) ==> from.tried(outcome) == from,
        from.phase is Blocked ==> from.paused().phase is Attempting,
        !(from.phase is Blocked) ==> from.paused() == from,
        from.ended() ==> from.tried(outcome).paused() == from,
{
}

/// A poisoned lock ends the acquisition at the try that finds it, whatever
/// the count of failed tries: poison is never followed by another try.
pub proof fn poison_ends_at_once(attempt: u64)
    ensures
        step_after(attempt, TryOutcome::Poisoned) == Step::Failed,
        (Acquisition { phase: Phase::Attempting, attempt }).tried(TryOutcome::Poisoned)
            == (Acquisition { phase: Phase::Poisoned, attempt }),
{
}

/// An acquisition whose first try finds the lock poisoned ends there, with no
/// failed try counted, whatever later tries would have come to.
pub proof fn poison_at_first_try(later: Seq<TryOutcome>)
    ensures
        (Acquisition { phase: Phase::Attempting, attempt: 0 }).ran(
            seq![TryOutcome::Poisoned] + later,
        ) == (Acquisition { phase: Phase::Poisoned, attempt: 0 }),
{
    assert((seq![TryOutcome::Poisoned] + later).drop_first() =~= later);
    ended_stays(Acquisition { phase: Phase::Poisoned, attempt: 0 }, later);
}

/// An acquisition that has ended is moved by no further try.
pub proof fn ended_stays(at: Acquisition, outcomes: Seq<TryOutcome>)
    requires
        at.ended(),
    ensures
        at.ran(outcomes) == at,
    decreases outcomes.len(),
{
    if outcomes.len() > 0 {
        ended_stays(at, outcomes.drop_first());
    }
}

/// While every try finds the lock held elsewhere, the acquisition goes on:
/// it is blocked after the last of them, and the failed tries before that one
/// are counted, as far as the counter goes.
pub proof fn blocked_tries_are_counted(from: Acquisition, outcomes: Seq<TryOutcome>)
    requires
        from.phase is Attempting,
        outcomes.len() > 0,
        forall|i: int| 0 <= i < outcomes.len() ==> outcomes[i] is WouldBlock,
    ensures
        from.ran(outcomes).phase is Blocked,
        from.ran(outcomes).attempt == if from.attempt + outcomes.len() - 1 <= u64::MAX {
            from.attempt + outcomes.len() - 1
        } else {
            u64::MAX as int
        },
    decreases outcomes.len(),
{
    let first = from.paused().tried(outcomes[0]);
    let rest = outcomes.drop_first();
    if rest.len() == 0 {
        assert(first.ran(rest) == first);
    } else {
        let resumed = first.paused();
        assert forall|i: int| 0 <= i < rest.len() implies rest[i] is WouldBlock by {
            assert(rest[i] == outcomes[i + 1]);
        }
        lemma_ran_from_blocked(first, rest);
        blocked_tries_are_counted(resumed, rest);
    }
}

/// An acquisition ends at the first try that comes to anything but a lock
/// held elsewhere: with the permit if that try was granted one, with the
/// poison error if it found the lock poisoned. The tries before it are the
/// failed ones and are counted, as far as the counter goes; the tries after
/// it change nothing.
pub proof fn acquisition_ends_at_first_verdict(
    from: Acquisition,
    outcomes: Seq<TryOutcome>,
    verdict: int,
)
    requires
        from.phase is Attempting,
        0 <= verdict < outcomes.len(),
        !(outcomes[verdict] is WouldBlock),
        forall|i: int| 0 <= i < verdict ==> outcomes[i] is WouldBlock,
    ensures
        from.ran(outcomes).phase == match outcomes[verdict] {
            TryOutcome::Acquired => Phase::Acquired,
            _ => Phase::Poisoned,
        },
        from.ran(outcomes).attempt == if from.attempt + verdict <= u64::MAX {
            from.attempt + verdict
        } else {
            u64::MAX as int
        },
    decreases verdict,
{
    let first = from.paused().tried(outcomes[0]);
    let rest = outcomes.drop_first();
    if verdict == 0 {
        ended_stays(first, rest);
    } else {
        lemma_ran_from_blocked(first, rest);
        acquisition_ends_at_first_verdict(first.paused(), rest, verdict - 1);
    }
}

/// Running on from a blocked acquisition is running on from where its pause
/// leaves it.
proof fn lemma_ran_from_blocked(at: Acquisition, outcomes: Seq<TryOutcome>)
    requires
        at.phase is Blocked,
        outcomes.len() > 0,
    ensures
        at.ran(outcomes) == at.paused().ran(outcomes),
{
}

/// The machine and the steps agree: a try ends the acquisition where the
/// step is the last, and leaves it blocked where the step asks for another
/// try, which is then counted as the step says.
pub proof fn machine_follows_steps(attempt: u64, outcome: TryOutcome)
    ensures
        ({
            let from = Acquisition { phase: Phase::Attempting, attempt };
            match step_after(attempt, outcome) {
                Step::Done => from.tried(outcome).phase is Acquired,
                Step::Failed => from.tried(outcome).phase is Poisoned,
                Step::Retry(due) => {
                    &&& from.tried(outcome).phase is Blocked
                    &&& from.tried(outcome).paused() == (Acquisition {
                        phase: Phase::Attempting,
                        attempt: due.next_attempt,
                    })
                },
            }
        }),
{
}

/// One try as the record of the latest holder sees it: what the try came to,
/// and the trace of the one who tried, where one could be taken.
pub struct TryRecord {
    pub outcome: TryOutcome,
    pub acquirer: Option<StracktraceView>,
}

/// The latest holder after one try: the one who tried, if the permit was
/// granted, as far as its trace is known; else the holder as before.
pub open spec fn holder_after(before: Option<StracktraceView>, tried: TryRecord) -> Option<
    StracktraceView,
> {
    match tried.outcome {
        TryOutcome::Acquired => tried.acquirer,
        _ => before,
    }
}

/// The latest holder after the tries, one after the other.
pub open spec fn holder_after_all(before: Option<StracktraceView>, tries: Seq<TryRecord>) -> Option<
    StracktraceView,
>
    decreases tries.len(),
{
    if tries.len() == 0 {
        before
    } else {
        holder_after(holder_after_all(before, tries.drop_last()), tries.last())
    }
}

/// After any tries on a lock, by whichever acquisitions and in whatever
/// order, the record of the latest holder shows the one whose try was the
/// last to be granted a permit.
pub proof fn holder_is_latest_acquirer(
    before: Option<StracktraceView>,
    tries: Seq<TryRecord>,
    latest: int,
)
    requires
        0 <= latest < tries.len(),
        tries[latest].outcome is Acquired,
        forall|j: int| latest < j < tries.len() ==> !(tries[j].outcome is Acquired),
    ensures
        holder_after_all(before, tries) == tries[latest].acquirer,
    decreases tries.len(),
{
    if latest < tries.len() - 1 {
        holder_is_latest_acquirer(before, tries.drop_last(), latest);
    }
}

/// Tries that are granted no permit leave the record of the latest holder as
/// it was: the record changes when a permit is granted and at no other time.
pub proof fn holder_kept_without_acquirer(before: Option<StracktraceView>, tries: Seq<TryRecord>)
    requires
        forall|j: int| 0 <= j < tries.len() ==> !(tries[j].outcome is Acquired),
    ensures
        holder_after_all(before, tries) == before,
    decreases tries.len(),
{
    if tries.len() > 0 {
        holder_kept_without_acquirer(before, tries.drop_last());
    }
}

} // verus!
