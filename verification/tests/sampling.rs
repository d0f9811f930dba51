use cpu_monitor::clock::{Duration, Timestamp};
use cpu_monitor::cpu::{Counters, CpuId};
use cpu_monitor::error::StatError;
use cpu_monitor::monitor::{Fraction, StatSnapshot};
use cpu_monitor::sampler::{
    Sampler, SamplerAction, SamplerEvent, SamplerState, DEFAULT_INTERVAL_NANOS,
};

fn at(sec: i64) -> Timestamp {
    Timestamp { sec, nsec: 0 }
}

fn line(text: &str) -> SamplerEvent {
    SamplerEvent::Line(text.as_bytes().to_vec())
}

fn interval() -> Duration {
    Duration { nanos: DEFAULT_INTERVAL_NANOS }
}

fn first() -> StatSnapshot {
    StatSnapshot {
        time: at(100),
        cpu_id: CpuId::Aggregate,
        counters: Counters {
            user: 100,
            nice: 0,
            system: 0,
            idle: 100,
            iowait: 0,
            irq: 0,
            softirq: 0,
        },
    }
}

fn waiting() -> Sampler {
    let mut sampler = Sampler::new(interval());
    sampler.step_at(SamplerEvent::Begin, at(99));
    sampler.step_at(line("cpu 100 0 0 100 0 0 0"), at(100));
    sampler
}

#[test]
fn default_interval_is_five_seconds() {
    assert_eq!(DEFAULT_INTERVAL_NANOS, 5 * 1_000_000_000);
}

#[test]
fn new_cycle_is_idle() {
    let sampler = Sampler::new(interval());
    assert_eq!(sampler.state, SamplerState::Idle);
    assert_eq!(sampler.interval, interval());
    assert_eq!(sampler.pending(), SamplerAction::Rest);
}

#[test]
fn cycle_runs_from_idle_to_done() {
    let mut sampler = Sampler::new(interval());
    assert_eq!(sampler.step_at(SamplerEvent::Begin, at(99)), SamplerAction::ReadLine);
    assert_eq!(sampler.state, SamplerState::ReadingFirst);
    assert_eq!(
        sampler.step_at(line("cpu 100 0 0 100 0 0 0"), at(100)),
        SamplerAction::Wait(interval())
    );
    assert_eq!(sampler.state, SamplerState::Waiting { first: first() });
    assert_eq!(sampler.step_at(SamplerEvent::WaitOver, at(105)), SamplerAction::ReadLine);
    assert_eq!(sampler.state, SamplerState::ReadingSecond { first: first() });
    assert_eq!(sampler.step_at(line("cpu 150 0 0 100 0 0 0"), at(105)), SamplerAction::Compute);
    let mut second = first();
    second.time = at(105);
    second.counters.user = 150;
    assert_eq!(sampler.state, SamplerState::Computing { first: first(), second });
    assert_eq!(sampler.step_at(SamplerEvent::Proceed, at(106)), SamplerAction::Rest);
    match sampler.state {
        SamplerState::Done(report) => {
            assert_eq!(report.user(), Fraction { numer: 50, denom: 50 });
            assert_eq!(report.idle(), Fraction { numer: 0, denom: 50 });
            assert_eq!(report.total_used(), Fraction { numer: 50, denom: 50 });
            assert_eq!(report.duration(), Duration { nanos: 5_000_000_000 });
            assert_eq!(report.cpu_id(), CpuId::Aggregate);
        }
        other => panic!("the cycle ended in {:?}", other),
    }
    assert_eq!(sampler.interval, interval());
}

#[test]
fn cycle_with_identical_readings_fails_with_zero_activity() {
    let mut sampler = waiting();
    sampler.step_at(SamplerEvent::WaitOver, at(105));
    sampler.step_at(line("cpu 100 0 0 100 0 0 0"), at(105));
    assert_eq!(sampler.step_at(SamplerEvent::Proceed, at(105)), SamplerAction::Rest);
    assert_eq!(sampler.state, SamplerState::Failed(StatError::ZeroActivity));
}

#[test]
fn cycle_with_a_regressed_reading_fails_with_a_regression() {
    let mut sampler = waiting();
    sampler.step_at(SamplerEvent::WaitOver, at(105));
    sampler.step_at(line("cpu 99 0 0 100 0 0 0"), at(105));
    sampler.step_at(SamplerEvent::Proceed, at(105));
    assert_eq!(sampler.state, SamplerState::Failed(StatError::CounterRegression));
}

#[test]
fn cycle_with_readings_of_two_cpus_fails_with_a_mismatch() {
    let mut sampler = waiting();
    sampler.step_at(SamplerEvent::WaitOver, at(105));
    sampler.step_at(line("cpu1 150 0 0 100 0 0 0"), at(105));
    sampler.step_at(SamplerEvent::Proceed, at(105));
    assert_eq!(
        sampler.state,
        SamplerState::Failed(StatError::IdentityMismatch {
            left: CpuId::Core(1),
            right: CpuId::Aggregate
        })
    );
}

#[test]
fn malformed_line_fails_the_cycle() {
    let mut sampler = Sampler::new(interval());
    sampler.step_at(SamplerEvent::Begin, at(99));
    assert_eq!(sampler.step_at(line("cpu 1 2 3"), at(100)), SamplerAction::Rest);
    assert_eq!(sampler.state, SamplerState::Failed(StatError::FormatError));
    let mut sampler = waiting();
    sampler.step_at(SamplerEvent::WaitOver, at(105));
    assert_eq!(sampler.step_at(line(""), at(105)), SamplerAction::Rest);
    assert_eq!(sampler.state, SamplerState::Failed(StatError::FormatError));
}

#[test]
fn failing_source_fails_the_cycle() {
    let mut sampler = Sampler::new(interval());
    sampler.step_at(SamplerEvent::Begin, at(99));
    assert_eq!(sampler.step_at(SamplerEvent::SourceFailed, at(100)), SamplerAction::Rest);
    assert_eq!(sampler.state, SamplerState::Failed(StatError::SourceUnavailable));
    let mut sampler = waiting();
    sampler.step_at(SamplerEvent::WaitOver, at(105));
    sampler.step_at(SamplerEvent::SourceFailed, at(105));
    assert_eq!(sampler.state, SamplerState::Failed(StatError::SourceUnavailable));
}

#[test]
fn cancelled_wait_discards_the_cycle() {
    let mut sampler = waiting();
    assert_eq!(sampler.step_at(SamplerEvent::Cancelled, at(101)), SamplerAction::Rest);
    assert_eq!(sampler.state, SamplerState::Idle);
    assert_eq!(sampler.step_at(SamplerEvent::Begin, at(102)), SamplerAction::ReadLine);
}

#[test]
fn event_that_is_not_waited_for_changes_nothing() {
    let mut sampler = Sampler::new(interval());
    for event in [
        line("cpu 1 2 3 4 5 6 7"),
        SamplerEvent::SourceFailed,
        SamplerEvent::WaitOver,
        SamplerEvent::Cancelled,
        SamplerEvent::Proceed,
    ] {
        assert_eq!(sampler.step_at(event, at(1)), SamplerAction::Rest);
        assert_eq!(sampler.state, SamplerState::Idle);
    }
    sampler.step_at(SamplerEvent::Begin, at(1));
    for event in [
        SamplerEvent::Begin,
        SamplerEvent::WaitOver,
        SamplerEvent::Cancelled,
        SamplerEvent::Proceed,
    ] {
        assert_eq!(sampler.step_at(event, at(1)), SamplerAction::ReadLine);
        assert_eq!(sampler.state, SamplerState::ReadingFirst);
    }
    let mut sampler = waiting();
    for event in [
        SamplerEvent::Begin,
        line("cpu 1 2 3 4 5 6 7"),
        SamplerEvent::SourceFailed,
        SamplerEvent::Proceed,
    ] {
        assert_eq!(sampler.step_at(event, at(1)), SamplerAction::Wait(interval()));
        assert_eq!(sampler.state, SamplerState::Waiting { first: first() });
    }
}

#[test]
fn final_states_are_left_by_no_event() {
    let mut failed = Sampler::new(interval());
    failed.step_at(SamplerEvent::Begin, at(1));
    failed.step_at(SamplerEvent::SourceFailed, at(1));
    let mut done = waiting();
    done.step_at(SamplerEvent::WaitOver, at(105));
    done.step_at(line("cpu 150 0 0 100 0 0 0"), at(105));
    done.step_at(SamplerEvent::Proceed, at(105));
    let done_state = done.state;
    for event in [
        SamplerEvent::Begin,
        line("cpu 1 2 3 4 5 6 7"),
        SamplerEvent::SourceFailed,
        SamplerEvent::WaitOver,
        SamplerEvent::Cancelled,
        SamplerEvent::Proceed,
    ] {
        assert_eq!(failed.step_at(event.clone(), at(2)), SamplerAction::Rest);
        assert_eq!(failed.state, SamplerState::Failed(StatError::SourceUnavailable));
        assert_eq!(done.step_at(event, at(2)), SamplerAction::Rest);
        assert_eq!(done.state, done_state);
    }
}

#[test]
fn cycle_that_reads_the_clock_itself() {
    let mut sampler = Sampler::new(Duration { nanos: 0 });
    assert_eq!(sampler.step(SamplerEvent::Begin), SamplerAction::ReadLine);
    assert_eq!(sampler.step(line("cpu 100 0 0 100 0 0 0")), SamplerAction::Wait(Duration { nanos: 0 }));
    assert_eq!(sampler.step(SamplerEvent::WaitOver), SamplerAction::ReadLine);
    assert_eq!(sampler.step(line("cpu 130 0 0 110 0 0 0")), SamplerAction::Compute);
    assert_eq!(sampler.step(SamplerEvent::Proceed), SamplerAction::Rest);
    match sampler.state {
        SamplerState::Done(report) => {
            assert_eq!(report.user(), Fraction { numer: 30, denom: 40 });
            assert_eq!(report.total_used(), Fraction { numer: 30, denom: 40 });
            assert!(report.duration().nanos >= 0);
        }
        other => panic!("the cycle ended in {:?}", other),
    }
}
