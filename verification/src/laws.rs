//! What holds of the countdown whatever the clock does, proved of the model
//! that the contracts in [`crate::countdown`] speak of.

use crate::clock::Timestamp;
use crate::countdown::{
    CountdownError, CountdownModel, Phase, MAX_PAUSED_NANOS, MAX_START_SECONDS,
};
use vstd::prelude::*;

verus! {

/// Every operation keeps a well-formed state well-formed.
pub proof fn law_operations_keep_wf(m: CountdownModel, seconds: nat, now: int)
    requires
        m.wf(),
    ensures
        CountdownModel::stopped().wf(),
        CountdownModel::running(seconds, now).wf(),
        m.after_start(seconds, now).wf(),
        m.after_pause(now).wf(),
        m.after_resume(now).wf(),
        m.polled(now).wf(),
{
}

/// `start` refuses a run of more than three hours, whatever the state, and
/// leaves the state as it was, a run in progress included.
pub proof fn law_start_refuses_long_runs(m: CountdownModel, seconds: nat, now: int)
    requires
        seconds > MAX_START_SECONDS,
    ensures
        CountdownModel::start_result(seconds)
            == Err::<(), CountdownError>(CountdownError::InvalidDuration),
        m.after_start(seconds, now) == m,
{
}

/// A run that has just begun is running, neither paused nor announced, and
/// has its whole length left. `restart` begins such a run from any state,
/// and `start` does where it accepts the length.
pub proof fn law_fresh_run_has_its_whole_length(m: CountdownModel, seconds: nat, now: int)
    ensures
        CountdownModel::running(seconds, now).phase() == Phase::Running,
        CountdownModel::running(seconds, now).duration == seconds,
        CountdownModel::running(seconds, now).remaining_at(now) == seconds,
        !CountdownModel::running(seconds, now).paused,
        CountdownModel::running(seconds, now).pause_start is None,
        CountdownModel::running(seconds, now).paused_nanos == 0,
        !CountdownModel::running(seconds, now).announced,
        seconds <= MAX_START_SECONDS ==> m.after_start(seconds, now)
            == CountdownModel::running(seconds, now),
{
}

/// A pause that is ended at the moment it began changes nothing: the state
/// is what it was, and so is the time left at every moment.
pub proof fn law_pause_and_resume_at_once(m: CountdownModel, now: int, later: int)
    requires
        m.wf(),
        m.phase() == Phase::Running,
    ensures
        m.after_pause(now).resume_result(now) is Ok,
        m.after_pause(now).after_resume(now) == m,
        m.after_pause(now).after_resume(now).remaining_at(later) == m.remaining_at(later),
{
}

/// While a pause lasts, time stands still: at every moment the time left
/// is what it was when the pause began.
pub proof fn law_time_stands_still_while_paused(m: CountdownModel, paused_at: int, now: int)
    requires
        m.wf(),
        m.phase() == Phase::Running,
    ensures
        m.after_pause(paused_at).phase() == Phase::Paused,
        m.after_pause(paused_at).remaining_at(now) == m.remaining_at(paused_at),
{
}

/// Time spent paused does not count. Once a pause has ended, the run goes
/// on, and the time left at any moment is what it would have been, without
/// the pause, earlier by the length of the pause. This holds of every pause
/// whose length the total of pauses can take.
pub proof fn law_paused_time_does_not_count(
    m: CountdownModel,
    paused_at: int,
    resumed_at: int,
    now: int,
)
    requires
        m.wf(),
        m.phase() == Phase::Running,
        -MAX_PAUSED_NANOS <= m.paused_nanos + (resumed_at - paused_at) <= MAX_PAUSED_NANOS,
    ensures
        m.after_pause(paused_at).resume_result(resumed_at) == Ok::<(), CountdownError>(()),
        m.after_pause(paused_at).after_resume(resumed_at).phase() == Phase::Running,
        m.after_pause(paused_at).after_resume(resumed_at).remaining_at(now)
            == m.remaining_at(now - (resumed_at - paused_at)),
{
}

/// What `resume` does to a paused countdown: where the total of pauses can
/// take the length of the pause, from its beginning `since` to `now`, the
/// answer is `Ok`, the pause is over, its length is added to the total, and
/// the start, the length of the run and the announcement stay as they were.
pub proof fn law_resume_adds_the_pause(m: CountdownModel, since: int, now: int)
    requires
        m.wf(),
        m.paused,
        m.pause_start == Some(since),
        -MAX_PAUSED_NANOS <= m.paused_nanos + (now - since) <= MAX_PAUSED_NANOS,
    ensures
        m.resume_result(now) == Ok::<(), CountdownError>(()),
        !m.after_resume(now).paused,
        m.after_resume(now).pause_start is None,
        m.after_resume(now).paused_nanos == m.paused_nanos + (now - since),
        m.after_resume(now).start == m.start,
        m.after_resume(now).duration == m.duration,
        m.after_resume(now).announced == m.announced,
        m.after_pause(now) == m.after_resume(now),
        m.pause_result(now) == m.resume_result(now),
{
}

/// When `pause` and `resume` refuse, and that they refuse for no other
/// reason: `resume` needs a pause in progress and a total that can take its
/// length, `pause` needs a started countdown and, where that is paused, what
/// `resume` needs. A refusal leaves the state as it was.
pub proof fn law_refusals_of_pause_and_resume(m: CountdownModel, now: int)
    requires
        m.wf(),
    ensures
        m.resume_result(now) == Err::<(), CountdownError>(CountdownError::NotPaused) <==> !m.paused,
        m.resume_result(now) == Err::<(), CountdownError>(CountdownError::PauseOutOfRange)
            <==> m.paused && !m.resume_fits(now),
        m.resume_result(now) is Ok <==> m.paused && m.resume_fits(now),
        m.pause_result(now) == Err::<(), CountdownError>(CountdownError::NotStarted)
            <==> m.start is None,
        m.pause_result(now) == Err::<(), CountdownError>(CountdownError::PauseOutOfRange)
            <==> m.paused && !m.resume_fits(now),
        m.pause_result(now) is Ok
            <==> m.phase() == Phase::Running || (m.paused && m.resume_fits(now)),
        m.resume_result(now) is Err ==> m.after_resume(now) == m,
        m.pause_result(now) is Err ==> m.after_pause(now) == m,
{
}

/// A pause between two moments on the calendar is short beside what the
/// total of pauses can take: less than a five-hundredth of it. So a total
/// that is not yet within a five-hundredth of its limit takes any such
/// pause, and `resume` does not refuse it; the first pause of a run, and
/// the first hundreds, always fit.
pub proof fn law_pauses_on_the_calendar_fit(m: CountdownModel, since: Timestamp, now: Timestamp)
    requires
        m.wf(),
        m.pause_start == Some(since@),
        since.on_calendar(),
        now.on_calendar(),
        -MAX_PAUSED_NANOS + MAX_PAUSED_NANOS / 500 <= m.paused_nanos,
        m.paused_nanos <= MAX_PAUSED_NANOS - MAX_PAUSED_NANOS / 500,
    ensures
        -MAX_PAUSED_NANOS / 500 < now@ - since@ < MAX_PAUSED_NANOS / 500,
        m.resume_fits(now@),
        m.resume_result(now@) == Ok::<(), CountdownError>(()),
{
}

/// Time only runs down: of two moments the later never has more left, and
/// while the clock has not gone back behind the start of the run, no more is
/// left than the run is long.
pub proof fn law_time_runs_down(m: CountdownModel, now: int, later: int)
    requires
        now <= later,
    ensures
        m.remaining_at(later) <= m.remaining_at(now),
        m.elapsed_nanos(now) >= 0 ==> m.remaining_at(now) <= m.duration,
{
}

/// The total of pauses changes only when a pause ends, and then it grows by
/// the length of the pause: it never shrinks while the clock does not go
/// back.
pub proof fn law_paused_total_only_grows(m: CountdownModel, now: int)
    requires
        m.wf(),
    ensures
        m.polled(now).paused_nanos == m.paused_nanos,
        !m.paused ==> m.after_pause(now).paused_nanos == m.paused_nanos,
        !m.paused ==> m.after_resume(now).paused_nanos == m.paused_nanos,
        m.pause_start matches Some(since) && since <= now
            ==> m.after_resume(now).paused_nanos >= m.paused_nanos,
        m.pause_start matches Some(since) && since <= now
            ==> m.after_pause(now).paused_nanos >= m.paused_nanos,
{
}

/// A stopped countdown, which is what `reset` leaves, shows no time left
/// and the phase `stopped`, and calls for no announcement.
pub proof fn law_reset_shows_nothing_left(now: int)
    ensures
        CountdownModel::stopped().remaining_at(now) == 0,
        CountdownModel::stopped().phase() == Phase::Stopped,
        !CountdownModel::stopped().announces_at(now),
        CountdownModel::stopped().polled(now) == CountdownModel::stopped(),
{
}

/// `resume` on a countdown that is not paused is refused as not paused, and
/// leaves the state, its times included, as it was.
pub proof fn law_resume_needs_a_pause(m: CountdownModel, now: int)
    requires
        !m.paused,
    ensures
        m.resume_result(now) == Err::<(), CountdownError>(CountdownError::NotPaused),
        m.after_resume(now) == m,
{
}

/// An operation that does not begin or end a run, with the moment at which
/// it is asked.
pub enum RunStep {
    Pause(int),
    Resume(int),
    Status(int),
}

impl CountdownModel {
    /// The state after one step.
    pub open spec fn after(self, step: RunStep) -> CountdownModel {
        match step {
            RunStep::Pause(now) => self.after_pause(now),
            RunStep::Resume(now) => self.after_resume(now),
            RunStep::Status(now) => self.polled(now),
        }
    }

    /// Whether a step calls for the announcement of the expiry. Only a
    /// status query can.
    pub open spec fn announces(self, step: RunStep) -> bool {
        match step {
            RunStep::Status(now) => self.announces_at(now),
            _ => false,
        }
    }

    /// The state after the steps, taken in order.
    pub open spec fn after_all(self, steps: Seq<RunStep>) -> CountdownModel
        decreases steps.len(),
    {
        if steps.len() == 0 {
            self
        } else {
            self.after(steps[0]).after_all(steps.drop_first())
        }
    }

    /// How many of the steps, taken in order, call for the announcement.
    pub open spec fn announcements(self, steps: Seq<RunStep>) -> nat
        decreases steps.len(),
    {
        if steps.len() == 0 {
            0
        } else {
            (if self.announces(steps[0]) {
                1nat
            } else {
                0nat
            }) + self.after(steps[0]).announcements(steps.drop_first())
        }
    }
}

/// The expiry is announced at most once in a run: among pauses, resumes and
/// status queries, asked at any moments and in any order, at most one calls
/// for the announcement, and none does once the run has been announced.
/// After a query that found no time left the run counts as announced, and
/// it stays so until a `start`, a `restart` or a `reset`.
pub proof fn law_one_announcement_in_a_run(m: CountdownModel, steps: Seq<RunStep>)
    requires
        m.wf(),
    ensures
        m.announcements(steps) <= 1,
        m.announced ==> m.announcements(steps) == 0,
        m.announced ==> m.after_all(steps).announced,
        m.announcements(steps) == 1 ==> m.after_all(steps).announced,
        m.after_all(steps).wf(),
    decreases steps.len(),
{
    if steps.len() > 0 {
        law_one_announcement_in_a_run(m.after(steps[0]), steps.drop_first());
    }
}

/// A status query that finds a started run out of time and not yet
/// announced calls for the announcement, and no query after it does, at
/// whatever moment.
pub proof fn law_announcement_is_not_repeated(m: CountdownModel, now: int, later: int)
    ensures
        m.announces_at(now) <==> m.start is Some && !m.announced && m.remaining_at(now) == 0,
        m.announces_at(now) ==> m.polled(now).announced,
        m.announces_at(now) ==> !m.polled(now).announces_at(later),
{
}

} // verus!
