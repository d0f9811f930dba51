use vstd::prelude::*;
use crate::clock::current_time;
use crate::clock::Duration;
use crate::clock::Timestamp;
use crate::error::StatError;
use crate::monitor::monitor_stat;
use crate::monitor::sampled;
use crate::monitor::StatReport;
use crate::monitor::StatSnapshot;
use crate::parser::parse_cpu_line;
use crate::parser::parse_line;

verus! {

/// The wait between the two readings of a cycle where none is configured:
/// five seconds, in nanoseconds.
pub const DEFAULT_INTERVAL_NANOS: i128 = 5_000_000_000;

/// Where a sampling cycle stands.
#[derive(Debug, Clone, Copy, PartialEq, Eq, Structural)]
pub enum SamplerState {
    /// The cycle has not begun.
    Idle,
    /// The first line of counters has been asked for.
    ReadingFirst,
    /// The first reading is taken; the interval is being waited for.
    Waiting { first: StatSnapshot },
    /// The second line of counters has been asked for.
    ReadingSecond { first: StatSnapshot },
    /// Both readings are taken; the report is to be computed.
    Computing { first: StatSnapshot, second: StatSnapshot },
    /// The cycle ended with its report.
    Done(StatReport),
    /// The cycle ended without one.
    Failed(StatError),
}

/// What the outside world hands to a cycle.
#[derive(Debug, Clone, PartialEq, Eq)]
pub enum SamplerEvent {
    /// A cycle is to begin.
    Begin,
    /// The counter source gave this line.
    Line(Vec<u8>),
    /// The counter source could not be opened or read.
    SourceFailed,
    /// The interval has passed.
    WaitOver,
    /// The wait was called off.
    Cancelled,
    /// The computation may go on.
    Proceed,
}

/// What a cycle asks of the outside world.
#[derive(Debug, Clone, Copy, PartialEq, Eq, Structural)]
pub enum SamplerAction {
    /// Nothing: the cycle has not begun, or is over.
    Rest,
    /// Read one line of counters and hand it back, or say that the source
    /// failed.
    ReadLine,
    /// Wait for this long and say that the wait is over, or that it was
    /// called off.
    Wait(Duration),
    /// Say that the computation may go on.
    Compute,
}

/// The state that follows `state` on `event`, where a line that is read is
/// read at the time `now`. An event that the state does not wait for changes
/// nothing, so the two final states are left by no event; a failure is
/// handed on as it came, and nothing is tried again.
pub open spec fn next_state(state: SamplerState, event: SamplerEvent, now: Timestamp) -> SamplerState {
    match (state, event) {
        (SamplerState::Idle, SamplerEvent::Begin) => SamplerState::ReadingFirst,
        (SamplerState::ReadingFirst, SamplerEvent::Line(line)) => match parse_line(line@, now) {
            Ok(first) => SamplerState::Waiting { first },
            Err(e) => SamplerState::Failed(e),
        },
        (SamplerState::ReadingFirst, SamplerEvent::SourceFailed) => SamplerState::Failed(
            StatError::SourceUnavailable,
        ),
        (SamplerState::Waiting { first }, SamplerEvent::WaitOver) => SamplerState::ReadingSecond {
            first,
        },
        (SamplerState::Waiting { first }, SamplerEvent::Cancelled) => SamplerState::Idle,
        (SamplerState::ReadingSecond { first }, SamplerEvent::Line(line)) => match parse_line(
            line@,
            now,
        ) {
            Ok(second) => SamplerState::Computing { first, second },
            Err(e) => SamplerState::Failed(e),
        },
        (SamplerState::ReadingSecond { first }, SamplerEvent::SourceFailed) => SamplerState::Failed(
            StatError::SourceUnavailable,
        ),
        (SamplerState::Computing { first, second }, SamplerEvent::Proceed) => match sampled(
            first,
            second,
        ) {
            Ok(report) => SamplerState::Done(report),
            Err(e) => SamplerState::Failed(e),
        },
        (state, _) => state,
    }
}

/// What a cycle in `state` asks for, where the wait is `interval` long.
pub open spec fn awaited(state: SamplerState, interval: Duration) -> SamplerAction {
    match state {
        SamplerState::Idle => SamplerAction::Rest,
        SamplerState::ReadingFirst => SamplerAction::ReadLine,
        SamplerState::Waiting { .. } => SamplerAction::Wait(interval),
        SamplerState::ReadingSecond { .. } => SamplerAction::ReadLine,
        SamplerState::Computing { .. } => SamplerAction::Compute,
        SamplerState::Done(_) => SamplerAction::Rest,
        SamplerState::Failed(_) => SamplerAction::Rest,
    }
}

/// One sampling cycle: two readings with a wait between them, and the report
/// of what was counted in between. The cycle decides; reading and waiting
/// are done by whoever drives it.
#[derive(Debug, Clone, Copy, PartialEq, Eq, Structural)]
pub struct Sampler {
    pub interval: Duration,
    pub state: SamplerState,
}

impl Sampler {
    /// A cycle that has not begun, with `interval` between its readings.
    pub fn new(interval: Duration) -> (sampler: Sampler)
        ensures
            sampler == (Sampler { interval, state: SamplerState::Idle }),
    {
        Sampler { interval, state: SamplerState::Idle }
    }

    /// What the cycle asks for as it stands.
    pub fn pending(&self) -> (action: SamplerAction)
        ensures
            action == awaited(self.state, self.interval),
    {
        match self.state {
            SamplerState::Idle => SamplerAction::Rest,
            SamplerState::ReadingFirst => SamplerAction::ReadLine,
            SamplerState::Waiting { .. } => SamplerAction::Wait(self.interval),
            SamplerState::ReadingSecond { .. } => SamplerAction::ReadLine,
            SamplerState::Computing { .. } => SamplerAction::Compute,
            SamplerState::Done(_) => SamplerAction::Rest,
            SamplerState::Failed(_) => SamplerAction::Rest,
        }
    }

    /// Takes one event, where a line that is read is read at the time `now`,
    /// and says what the cycle asks for next.
    pub fn step_at(&mut self, event: SamplerEvent, now: Timestamp) -> (action: SamplerAction)
        ensures
            final(self).interval == old(self).interval,
            final(self).state == next_state(old(self).state, event, now),
            action == awaited(final(self).state, final(self).interval),
    {
        let next = match (self.state, event) {
            (SamplerState::Idle, SamplerEvent::Begin) => SamplerState::ReadingFirst,
            (SamplerState::ReadingFirst, SamplerEvent::Line(line)) => match parse_cpu_line(
                line.as_slice(),
                now,
            ) {
                Ok(first) => SamplerState::Waiting { first },
                Err(e) => SamplerState::Failed(e),
            },
            (SamplerState::ReadingFirst, SamplerEvent::SourceFailed) => SamplerState::Failed(
                StatError::SourceUnavailable,
            ),
            (SamplerState::Waiting { first }, SamplerEvent::WaitOver) => {
                SamplerState::ReadingSecond { first }
            },
            (SamplerState::Waiting { first }, SamplerEvent::Cancelled) => SamplerState::Idle,
            (SamplerState::ReadingSecond { first }, SamplerEvent::Line(line)) => {
                match parse_cpu_line(line.as_slice(), now) {
                    Ok(second) => SamplerState::Computing { first, second },
                    Err(e) => SamplerState::Failed(e),
                }
            },
            (SamplerState::ReadingSecond { first }, SamplerEvent::SourceFailed) => {
                SamplerState::Failed(StatError::SourceUnavailable)
            },
            (SamplerState::Computing { first, second }, SamplerEvent::Proceed) => {
                match monitor_stat(first, second) {
                    Ok(report) => SamplerState::Done(report),
                    Err(e) => SamplerState::Failed(e),
                }
            },
            (state, _) => state,
        };
        self.state = next;
        self.pending()
    }

    /// Takes one event, reading the clock for a line that is read, and says
    /// what the cycle asks for next.
    pub fn step(&mut self, event: SamplerEvent) -> (action: SamplerAction)
        ensures
            final(self).interval == old(self).interval,
            exists|now: Timestamp|
                now.wf() && final(self).state == #[trigger] next_state(old(self).state, event, now),
            action == awaited(final(self).state, final(self).interval),
    {
        let now = current_time();
        self.step_at(event, now)
    }
}

/// The cycle is over: it ended with its report, or without one.
pub open spec fn is_final(state: SamplerState) -> bool {
    state is Done || state is Failed
}

/// What a cycle comes to whose first line is read at `t0` and whose second
/// line at `t1`: the report of what was counted between the two readings, or
/// the first failure on the way, as it came.
pub open spec fn cycle_outcome(
    first_line: Seq<u8>,
    t0: Timestamp,
    second_line: Seq<u8>,
    t1: Timestamp,
) -> Result<StatReport, StatError> {
    match parse_line(first_line, t0) {
        Err(e) => Err(e),
        Ok(first) => match parse_line(second_line, t1) {
            Err(e) => Err(e),
            Ok(second) => sampled(first, second),
        },
    }
}

/// No event leads out of a final state: a cycle that failed is not tried
/// again, and one that is done stays done.
pub proof fn lemma_final_states_stay(state: SamplerState, event: SamplerEvent, now: Timestamp)
    requires
        is_final(state),
    ensures
        next_state(state, event, now) == state,
{
}

/// A cycle that is begun, given its first line, told that the wait is over,
/// given its second line and let go on ends in a final state: done with the
/// report that the two lines come to, or failed with the failure that they
/// come to. The times of the other three events do not matter.
pub proof fn lemma_cycle_ends_in_its_outcome(
    first_line: Vec<u8>,
    t0: Timestamp,
    second_line: Vec<u8>,
    t1: Timestamp,
    begun: Timestamp,
    waited: Timestamp,
    computed: Timestamp,
)
    ensures
        ({
            let reading = next_state(SamplerState::Idle, SamplerEvent::Begin, begun);
            let waiting = next_state(reading, SamplerEvent::Line(first_line), t0);
            let reading_again = next_state(waiting, SamplerEvent::WaitOver, waited);
            let computing = next_state(reading_again, SamplerEvent::Line(second_line), t1);
            let last = next_state(computing, SamplerEvent::Proceed, computed);
            match cycle_outcome(first_line@, t0, second_line@, t1) {
                Ok(report) => last == SamplerState::Done(report),
                Err(e) => last == SamplerState::Failed(e),
            }
        }),
{
}

} // verus!
