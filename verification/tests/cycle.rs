use cpu_monitor::clock::{Duration, Timestamp};
use cpu_monitor::cpu::{Counters, CpuId};
use cpu_monitor::error::StatError;
use cpu_monitor::monitor::{monitor_stat, Fraction, StatReport};
use cpu_monitor::parser::parse_cpu_line;

fn at(sec: i64) -> Timestamp {
    Timestamp { sec, nsec: 0 }
}

fn value(f: Fraction) -> f64 {
    f.numer as f64 / f.denom as f64
}

#[test]
fn cycle_of_fifty_user_units_is_all_used() {
    let start = parse_cpu_line(b"cpu 100 0 0 100 0 0 0", at(1000)).unwrap();
    let end = parse_cpu_line(b"cpu 150 0 0 100 0 0 0", at(1005)).unwrap();
    let delta = (end - start).unwrap();
    assert_eq!(delta.time, Duration { nanos: 5_000_000_000 });
    assert_eq!(delta.cpu_id, CpuId::Aggregate);
    assert_eq!(
        delta.counters,
        Counters { user: 50, nice: 0, system: 0, idle: 0, iowait: 0, irq: 0, softirq: 0 }
    );
    let report = StatReport::from_stat_delta(delta).unwrap();
    assert_eq!(value(report.user()), 1.0);
    assert_eq!(value(report.idle()), 0.0);
    assert_eq!(value(report.total_used()), 1.0);
    assert_eq!(monitor_stat(start, end), Ok(report));
}

#[test]
fn cycle_of_identical_counters_is_zero_activity() {
    let start = parse_cpu_line(b"cpu 100 0 0 100 0 0 0", at(1000)).unwrap();
    let end = parse_cpu_line(b"cpu 100 0 0 100 0 0 0", at(1005)).unwrap();
    assert_eq!(monitor_stat(start, end), Err(StatError::ZeroActivity));
}
