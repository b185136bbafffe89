//! The countdown engine: one countdown, its state, and the operations that
//! start, pause, resume, restart, reset and query it.
//!
//! The engine reads no clock. Every operation that needs the time takes the
//! moment as an argument, and is exact about what it does with it.
//!
//! The engine never speaks itself. The status query tells the caller when
//! the expiry is to be announced, once per run, and the caller sees to it.

use crate::clock::{Timestamp, NANOS_PER_SEC};
use vstd::prelude::*;

verus! {

/// The longest run that `start` accepts, in seconds: three hours.
/// `restart` has no such limit.
pub const MAX_START_SECONDS: u64 = 10800;

/// The longest total of pauses that a state keeps, in nanoseconds, either
/// side of zero: `i64::MAX` milliseconds, which is also the longest span a
/// `chrono::TimeDelta` holds.
pub const MAX_PAUSED_NANOS: i128 = 9_223_372_036_854_775_807_000_000;

/// Why a countdown operation was refused. A refused operation leaves the
/// state as it was.
#[derive(Clone, Copy, Debug, PartialEq, Eq, Structural)]
pub enum CountdownError {
    /// `start` was asked for more than [`MAX_START_SECONDS`].
    InvalidDuration,
    /// `pause` was asked of a countdown that is not started.
    NotStarted,
    /// `resume` was asked of a countdown that is not paused.
    NotPaused,
    /// Resuming would take the total of pauses past [`MAX_PAUSED_NANOS`].
    PauseOutOfRange,
}

/// Where a countdown stands. A run that has reached zero is still
/// `Running` until it is reset or started anew.
#[derive(Clone, Copy, Debug, PartialEq, Eq, Structural)]
pub enum Phase {
    Stopped,
    Paused,
    Running,
}

impl Phase {
    /// The name of the phase as the status shows it.
    pub open spec fn label_text(self) -> Seq<char> {
        match self {
            Phase::Stopped => "stopped"@,
            Phase::Paused => "paused"@,
            Phase::Running => "running"@,
        }
    }

    /// The name of the phase as the status shows it.
    pub fn label(&self) -> (text: String)
        ensures
            text@ == self.label_text(),
    {
        match self {
            Phase::Stopped => "stopped".to_owned(),
            Phase::Paused => "paused".to_owned(),
            Phase::Running => "running".to_owned(),
        }
    }
}

impl CountdownError {
    /// The refusal in words.
    pub open spec fn message_text(self) -> Seq<char> {
        match self {
            CountdownError::InvalidDuration => "Duration cannot exceed 3 hours (10800 seconds)"@,
            CountdownError::NotStarted => "Countdown not started"@,
            CountdownError::NotPaused => "Countdown is not paused"@,
            CountdownError::PauseOutOfRange => "Paused time is out of range"@,
        }
    }

    /// The refusal in words.
    pub fn message(&self) -> (text: String)
        ensures
            text@ == self.message_text(),
    {
        match self {
            CountdownError::InvalidDuration => {
                "Duration cannot exceed 3 hours (10800 seconds)".to_owned()
            },
            CountdownError::NotStarted => "Countdown not started".to_owned(),
            CountdownError::NotPaused => "Countdown is not paused".to_owned(),
            CountdownError::PauseOutOfRange => "Paused time is out of range".to_owned(),
        }
    }
}

/// What a status query shows: the seconds left and the name of the phase,
/// `stopped`, `paused` or `running`.
#[derive(Debug, PartialEq, Eq)]
pub struct CountdownStatus {
    pub remaining_seconds: u64,
    pub status: String,
}

/// What a status query hands back: what to show, and whether the caller is
/// to announce the expiry now.
#[derive(Debug, PartialEq, Eq)]
pub struct StatusReport {
    pub status: CountdownStatus,
    pub announce: bool,
}

/// The countdown as the contracts see it: moments and spans are integers,
/// in nanoseconds.
pub struct CountdownModel {
    /// When the run began; `None` while the countdown is stopped.
    pub start: Option<int>,
    /// The length of the run, in seconds.
    pub duration: nat,
    /// Whether the run is paused.
    pub paused: bool,
    /// When the pause in progress began.
    pub pause_start: Option<int>,
    /// The total length of the pauses of this run that have ended.
    pub paused_nanos: int,
    /// Whether the expiry of this run has been announced.
    pub announced: bool,
}

/// The whole seconds in a span of nanoseconds, rounded toward zero.
pub open spec fn whole_seconds(nanos: int) -> int {
    if nanos >= 0 {
        nanos / 1_000_000_000
    } else {
        -((-nanos) / 1_000_000_000)
    }
}

/// `n`, or `u64::MAX` where `n` is larger.
pub open spec fn saturated(n: nat) -> nat {
    if n > u64::MAX {
        u64::MAX as nat
    } else {
        n
    }
}

impl CountdownModel {
    /// What holds of every state: a pause is in progress exactly when its
    /// beginning is recorded, only a started countdown is paused, and the
    /// total of pauses is within [`MAX_PAUSED_NANOS`].
    pub open spec fn wf(self) -> bool {
        &&& self.paused <==> self.pause_start is Some
        &&& self.paused ==> self.start is Some
        &&& -MAX_PAUSED_NANOS <= self.paused_nanos <= MAX_PAUSED_NANOS
    }

    /// The stopped countdown: nothing started, nothing to count.
    pub open spec fn stopped() -> CountdownModel {
        CountdownModel {
            start: None,
            duration: 0,
            paused: false,
            pause_start: None,
            paused_nanos: 0,
            announced: false,
        }
    }

    /// A run of `seconds` seconds that began at `now` and has not been
    /// paused or announced.
    pub open spec fn running(seconds: nat, now: int) -> CountdownModel {
        CountdownModel {
            start: Some(now),
            duration: seconds,
            paused: false,
            pause_start: None,
            paused_nanos: 0,
            announced: false,
        }
    }

    /// Where the countdown stands.
    pub open spec fn phase(self) -> Phase {
        if self.start is None {
            Phase::Stopped
        } else if self.paused {
            Phase::Paused
        } else {
            Phase::Running
        }
    }

    /// What `start` answers when asked for `seconds` seconds.
    pub open spec fn start_result(seconds: nat) -> Result<(), CountdownError> {
        if seconds > MAX_START_SECONDS {
            Err(CountdownError::InvalidDuration)
        } else {
            Ok(())
        }
    }

    /// The state after `start` was asked for `seconds` seconds at `now`.
    pub open spec fn after_start(self, seconds: nat, now: int) -> CountdownModel {
        if seconds > MAX_START_SECONDS {
            self
        } else {
            CountdownModel::running(seconds, now)
        }
    }

    /// The state with a pause begun at `now`.
    pub open spec fn pause_begun(self, now: int) -> CountdownModel {
        CountdownModel { paused: true, pause_start: Some(now), ..self }
    }

    /// The total of pauses once the pause in progress ends at `now`.
    pub open spec fn paused_total(self, now: int) -> int {
        match self.pause_start {
            Some(since) => self.paused_nanos + (now - since),
            None => self.paused_nanos,
        }
    }

    /// Whether the state can keep the total of pauses once the pause in
    /// progress ends at `now`.
    pub open spec fn resume_fits(self, now: int) -> bool {
        -MAX_PAUSED_NANOS <= self.paused_total(now) <= MAX_PAUSED_NANOS
    }

    /// The state with the pause in progress ended at `now`: its length is
    /// added to the total of pauses.
    pub open spec fn resumed(self, now: int) -> CountdownModel {
        CountdownModel {
            paused: false,
            pause_start: None,
            paused_nanos: self.paused_total(now),
            ..self
        }
    }

    /// What `resume` answers at `now`.
    pub open spec fn resume_result(self, now: int) -> Result<(), CountdownError> {
        if !self.paused {
            Err(CountdownError::NotPaused)
        } else if !self.resume_fits(now) {
            Err(CountdownError::PauseOutOfRange)
        } else {
            Ok(())
        }
    }

    /// The state after `resume` was asked at `now`.
    pub open spec fn after_resume(self, now: int) -> CountdownModel {
        if self.resume_result(now) is Ok {
            self.resumed(now)
        } else {
            self
        }
    }

    /// What `pause` answers at `now`. On a paused countdown `pause` is a
    /// `resume`.
    pub open spec fn pause_result(self, now: int) -> Result<(), CountdownError> {
        if self.start is None {
            Err(CountdownError::NotStarted)
        } else if self.paused {
            self.resume_result(now)
        } else {
            Ok(())
        }
    }

    /// The state after `pause` was asked at `now`.
    pub open spec fn after_pause(self, now: int) -> CountdownModel {
        if self.start is None {
            self
        } else if self.paused {
            self.after_resume(now)
        } else {
            self.pause_begun(now)
        }
    }

    /// The time the run has used up to `now`, in nanoseconds: the time
    /// since its start, less the pauses. While paused the run uses no time,
    /// so the count stops at the beginning of the pause. A stopped
    /// countdown has used none.
    pub open spec fn elapsed_nanos(self, now: int) -> int {
        match self.start {
            None => 0,
            Some(start) => if self.paused {
                match self.pause_start {
                    Some(since) => since - start - self.paused_nanos,
                    None => 0,
                }
            } else {
                now - start - self.paused_nanos
            },
        }
    }

    /// The seconds left at `now`: the length of the run less the whole
    /// seconds used, and zero where more were used than the run has. Where
    /// the clock has gone back behind the start of the run, the time used is
    /// negative, and more is left than the run is long.
    pub open spec fn remaining_at(self, now: int) -> nat {
        let left = self.duration - whole_seconds(self.elapsed_nanos(now));
        if left <= 0 {
            0
        } else {
            left as nat
        }
    }

    /// Whether a status query at `now` calls for the announcement of the
    /// expiry: the run is out of time and has not been announced.
    pub open spec fn announces_at(self, now: int) -> bool {
        self.start is Some && !self.announced && self.remaining_at(now) == 0
    }

    /// The state after a status query at `now`.
    pub open spec fn polled(self, now: int) -> CountdownModel {
        CountdownModel { announced: self.announced || self.announces_at(now), ..self }
    }
}

/// The state of one countdown.
#[derive(Clone, Copy, Debug, PartialEq, Eq)]
pub struct CountdownState {
    start_time: Option<Timestamp>,
    duration: u64,
    paused: bool,
    pause_start: Option<Timestamp>,
    paused_nanos: i128,
    tts_triggered: bool,
}

/// The moment as the model holds it.
pub open spec fn moment(t: Option<Timestamp>) -> Option<int> {
    match t {
        Some(t) => Some(t@),
        None => None,
    }
}

impl View for CountdownState {
    type V = CountdownModel;

    closed spec fn view(&self) -> CountdownModel {
        CountdownModel {
            start: moment(self.start_time),
            duration: self.duration as nat,
            paused: self.paused,
            pause_start: moment(self.pause_start),
            paused_nanos: self.paused_nanos as int,
            announced: self.tts_triggered,
        }
    }
}

impl CountdownState {
    #[verifier::type_invariant]
    spec fn inv(self) -> bool {
        self@.wf()
    }

    /// The stopped countdown.
    pub fn new() -> (s: CountdownState)
        ensures
            s@ == CountdownModel::stopped(),
    {
        CountdownState {
            start_time: None,
            duration: 0,
            paused: false,
            pause_start: None,
            paused_nanos: 0,
            tts_triggered: false,
        }
    }

    /// Begins a run of `seconds` seconds at `now`, whatever the state was,
    /// unless `seconds` is more than [`MAX_START_SECONDS`]: then the state
    /// stays as it was.
    pub fn start(&mut self, seconds: u64, now: Timestamp) -> (r: Result<(), CountdownError>)
        ensures
            r == CountdownModel::start_result(seconds as nat),
            final(self)@ == old(self)@.after_start(seconds as nat, now@),
            r is Err ==> *final(self) == *old(self),
            final(self)@.wf(),
    {
        proof {
            use_type_invariant(&*self);
        }
        if seconds > MAX_START_SECONDS {
            return Err(CountdownError::InvalidDuration);
        }
        self.restart(seconds, now)
    }

    /// Begins a run of `seconds` seconds at `now`, whatever the state was
    /// and however long the run. Unlike `start` it refuses nothing.
    pub fn restart(&mut self, seconds: u64, now: Timestamp) -> (r: Result<(), CountdownError>)
        ensures
            r == Ok::<(), CountdownError>(()),
            final(self)@ == CountdownModel::running(seconds as nat, now@),
            final(self)@.wf(),
    {
        *self = CountdownState {
            start_time: Some(now),
            duration: seconds,
            paused: false,
            pause_start: None,
            paused_nanos: 0,
            tts_triggered: false,
        };
        Ok(())
    }

    /// Ends the pause in progress at `now` and adds its length to the
    /// total of pauses. Refused, with the state as it was, where the
    /// countdown is not paused, or where the total would pass
    /// [`MAX_PAUSED_NANOS`].
    pub fn resume(&mut self, now: Timestamp) -> (r: Result<(), CountdownError>)
        ensures
            r == old(self)@.resume_result(now@),
            final(self)@ == old(self)@.after_resume(now@),
            r is Err ==> *final(self) == *old(self),
            final(self)@.wf(),
    {
        proof {
            use_type_invariant(&*self);
        }
        if !self.paused {
            return Err(CountdownError::NotPaused);
        }
        let total: i128 = match self.pause_start {
            Some(since) => self.paused_nanos + (now.total_nanos() - since.total_nanos()),
            None => self.paused_nanos,
        };
        if total < -MAX_PAUSED_NANOS || total > MAX_PAUSED_NANOS {
            return Err(CountdownError::PauseOutOfRange);
        }
        *self = CountdownState {
            start_time: self.start_time,
            duration: self.duration,
            paused: false,
            pause_start: None,
            paused_nanos: total,
            tts_triggered: self.tts_triggered,
        };
        Ok(())
    }

    /// Pauses a running countdown at `now`. Asked of a paused countdown it
    /// resumes it, as `resume` does. Refused, with the state as it was,
    /// where the countdown is not started, or where the resume is refused.
    pub fn pause(&mut self, now: Timestamp) -> (r: Result<(), CountdownError>)
        ensures
            r == old(self)@.pause_result(now@),
            final(self)@ == old(self)@.after_pause(now@),
            r is Err ==> *final(self) == *old(self),
            final(self)@.wf(),
    {
        proof {
            use_type_invariant(&*self);
        }
        if self.start_time.is_none() {
            return Err(CountdownError::NotStarted);
        }
        if self.paused {
            return self.resume(now);
        }
        *self = CountdownState {
            start_time: self.start_time,
            duration: self.duration,
            paused: true,
            pause_start: Some(now),
            paused_nanos: self.paused_nanos,
            tts_triggered: self.tts_triggered,
        };
        Ok(())
    }

    /// Where the countdown stands.
    pub fn phase(&self) -> (p: Phase)
        ensures
            p == self@.phase(),
    {
        if self.start_time.is_none() {
            Phase::Stopped
        } else if self.paused {
            Phase::Paused
        } else {
            Phase::Running
        }
    }

    /// The seconds left at `now`, as far as a `u64` can say: a count that
    /// is larger comes back as `u64::MAX`. That takes a clock that has
    /// gone back behind the start of a run almost `u64::MAX` seconds long.
    pub fn remaining_seconds(&self, now: Timestamp) -> (left: u64)
        ensures
            left == saturated(self@.remaining_at(now@)),
    {
        proof {
            use_type_invariant(self);
        }
        let start = match self.start_time {
            Some(start) => start,
            None => {
                return self.duration;
            },
        };
        let elapsed: i128 = if self.paused {
            match self.pause_start {
                Some(since) => since.total_nanos() - start.total_nanos() - self.paused_nanos,
                None => 0,
            }
        } else {
            now.total_nanos() - start.total_nanos() - self.paused_nanos
        };
        let used: i128 = if elapsed >= 0 {
            elapsed / NANOS_PER_SEC
        } else {
            -((-elapsed) / NANOS_PER_SEC)
        };
        let left: i128 = self.duration as i128 - used;
        if left <= 0 {
            0
        } else if left > u64::MAX as i128 {
            u64::MAX
        } else {
            left as u64
        }
    }

    /// Answers a status query at `now`: the seconds left, the phase, and
    /// whether the expiry is to be announced. The announcement is called
    /// for when a started countdown has no time left and this run has not
    /// been announced; the state then records it as announced, so that no
    /// later query of the same run calls for it again.
    pub fn status(&mut self, now: Timestamp) -> (r: StatusReport)
        ensures
            r.status.remaining_seconds == saturated(old(self)@.remaining_at(now@)),
            r.status.status@ == old(self)@.phase().label_text(),
            r.announce == old(self)@.announces_at(now@),
            final(self)@ == old(self)@.polled(now@),
            final(self)@.wf(),
    {
        proof {
            use_type_invariant(&*self);
        }
        let remaining = self.remaining_seconds(now);
        let label = self.phase().label();
        let announce = remaining == 0 && self.start_time.is_some() && !self.tts_triggered;
        if announce {
            *self = CountdownState {
                start_time: self.start_time,
                duration: self.duration,
                paused: self.paused,
                pause_start: self.pause_start,
                paused_nanos: self.paused_nanos,
                tts_triggered: true,
            };
        }
        StatusReport {
            status: CountdownStatus { remaining_seconds: remaining, status: label },
            announce,
        }
    }

    /// Stops the countdown and forgets the run.
    pub fn reset(&mut self) -> (r: Result<(), CountdownError>)
        ensures
            r == Ok::<(), CountdownError>(()),
            final(self)@ == CountdownModel::stopped(),
            final(self)@.wf(),
    {
        *self = CountdownState::new();
        Ok(())
    }

    /// When the run began, if the countdown is started.
    pub fn start_time(&self) -> (t: Option<Timestamp>)
        ensures
            moment(t) == self@.start,
    {
        self.start_time
    }

    /// The length of the run, in seconds.
    pub fn duration(&self) -> (d: u64)
        ensures
            d == self@.duration,
    {
        self.duration
    }

    /// Whether the run is paused.
    pub fn is_paused(&self) -> (p: bool)
        ensures
            p == self@.paused,
    {
        self.paused
    }

    /// When the pause in progress began, if the run is paused.
    pub fn pause_start(&self) -> (t: Option<Timestamp>)
        ensures
            moment(t) == self@.pause_start,
    {
        self.pause_start
    }

    /// The total length of the pauses of this run that have ended, in
    /// nanoseconds.
    pub fn paused_nanos(&self) -> (n: i128)
        ensures
            n == self@.paused_nanos,
    {
        self.paused_nanos
    }

    /// Whether the expiry of this run has been announced.
    pub fn announced(&self) -> (a: bool)
        ensures
            a == self@.announced,
    {
        self.tts_triggered
    }
}

impl Default for CountdownState {
    fn default() -> (s: CountdownState)
        ensures
            s@ == CountdownModel::stopped(),
    {
        CountdownState::new()
    }
}

} // verus!
