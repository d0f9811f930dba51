use vstd::prelude::*;
use vstd::std_specs::ops::AddSpecImpl;
use vstd::std_specs::ops::SubSpecImpl;
use crate::clock::current_time;
use crate::clock::lemma_timestamp_at_nanos;
use crate::clock::representable;
use crate::clock::timestamp_at;
use crate::clock::Duration;
use crate::clock::Timestamp;
use crate::cpu::check_cpus_match;
use crate::cpu::Counters;
use crate::cpu::CpuId;
use crate::error::StatError;
use crate::parser::is_counter_line;
use crate::parser::parse_cpu_line;
use crate::parser::parse_line;

verus! {

/// One reading of the cumulative counters of one processor line.
#[derive(Debug, Clone, Copy, PartialEq, Eq, Structural)]
pub struct StatSnapshot {
    pub time: Timestamp,
    pub cpu_id: CpuId,
    pub counters: Counters,
}

/// What was counted between two readings of the same processor line.
#[derive(Debug, Clone, Copy, PartialEq, Eq, Structural)]
pub struct StatDelta {
    pub time: Duration,
    pub cpu_id: CpuId,
    pub counters: Counters,
}

/// What `later - earlier` is: the counted difference, or the reason for
/// which there is none. A mismatch of identities is reported before a counter
/// that went backwards.
pub open spec fn snapshot_difference(later: StatSnapshot, earlier: StatSnapshot) -> Result<
    StatDelta,
    StatError,
> {
    if later.cpu_id != earlier.cpu_id {
        Err(StatError::IdentityMismatch { left: later.cpu_id, right: earlier.cpu_id })
    } else if !later.counters.covers(earlier.counters) {
        Err(StatError::CounterRegression)
    } else {
        Ok(
            StatDelta {
                time: Duration { nanos: (later.time.nanos() - earlier.time.nanos()) as i128 },
                cpu_id: later.cpu_id,
                counters: later.counters.minus(earlier.counters),
            },
        )
    }
}

impl core::ops::Sub<StatSnapshot> for StatSnapshot {
    type Output = Result<StatDelta, StatError>;

    /// `self - other`: what was counted from the reading `other` to the later
    /// reading `self`.
    fn sub(self, other: StatSnapshot) -> (r: Result<StatDelta, StatError>)
        ensures
            r == snapshot_difference(self, other),
    {
        match check_cpus_match(self.cpu_id, other.cpu_id) {
            Err(e) => Err(e),
            Ok(()) => match self.counters.checked_sub(other.counters) {
                None => Err(StatError::CounterRegression),
                Some(counters) => Ok(
                    StatDelta { time: self.time.since(other.time), cpu_id: self.cpu_id, counters },
                ),
            },
        }
    }
}

impl SubSpecImpl<StatSnapshot> for StatSnapshot {
    open spec fn obeys_sub_spec() -> bool {
        true
    }

    open spec fn sub_req(self, other: StatSnapshot) -> bool {
        true
    }

    open spec fn sub_spec(self, other: StatSnapshot) -> Result<StatDelta, StatError> {
        snapshot_difference(self, other)
    }
}

/// What `base + delta` is: the reading rebased forwards by a delta, or the
/// reason for which there is none, in the order identity, counters, time.
pub open spec fn snapshot_advanced(base: StatSnapshot, delta: StatDelta) -> Result<
    StatSnapshot,
    StatError,
> {
    if base.cpu_id != delta.cpu_id {
        Err(StatError::IdentityMismatch { left: base.cpu_id, right: delta.cpu_id })
    } else if !base.counters.fits_with(delta.counters) {
        Err(StatError::CounterRegression)
    } else if !representable(base.time.nanos() + delta.time.nanos) {
        Err(StatError::TimeOutOfRange)
    } else {
        Ok(
            StatSnapshot {
                time: timestamp_at(base.time.nanos() + delta.time.nanos),
                cpu_id: base.cpu_id,
                counters: base.counters.plus(delta.counters),
            },
        )
    }
}

/// What `base - delta` is: the reading rebased backwards by a delta, or the
/// reason for which there is none, in the order identity, counters, time.
pub open spec fn snapshot_rewound(base: StatSnapshot, delta: StatDelta) -> Result<
    StatSnapshot,
    StatError,
> {
    if base.cpu_id != delta.cpu_id {
        Err(StatError::IdentityMismatch { left: base.cpu_id, right: delta.cpu_id })
    } else if !base.counters.covers(delta.counters) {
        Err(StatError::CounterRegression)
    } else if !representable(base.time.nanos() - delta.time.nanos) {
        Err(StatError::TimeOutOfRange)
    } else {
        Ok(
            StatSnapshot {
                time: timestamp_at(base.time.nanos() - delta.time.nanos),
                cpu_id: base.cpu_id,
                counters: base.counters.minus(delta.counters),
            },
        )
    }
}

impl core::ops::Add<StatDelta> for StatSnapshot {
    type Output = Result<StatSnapshot, StatError>;

    /// `self + other`: the reading that lies the delta `other` after `self`.
    fn add(self, other: StatDelta) -> (r: Result<StatSnapshot, StatError>)
        ensures
            r == snapshot_advanced(self, other),
    {
        match check_cpus_match(self.cpu_id, other.cpu_id) {
            Err(e) => Err(e),
            Ok(()) => match self.counters.checked_add(other.counters) {
                None => Err(StatError::CounterRegression),
                Some(counters) => match self.time.shifted(other.time) {
                    None => Err(StatError::TimeOutOfRange),
                    Some(time) => Ok(StatSnapshot { time, cpu_id: self.cpu_id, counters }),
                },
            },
        }
    }
}

impl AddSpecImpl<StatDelta> for StatSnapshot {
    open spec fn obeys_add_spec() -> bool {
        true
    }

    open spec fn add_req(self, other: StatDelta) -> bool {
        true
    }

    open spec fn add_spec(self, other: StatDelta) -> Result<StatSnapshot, StatError> {
        snapshot_advanced(self, other)
    }
}

impl core::ops::Sub<StatDelta> for StatSnapshot {
    type Output = Result<StatSnapshot, StatError>;

    /// `self - other`: the reading that lies the delta `other` before `self`.
    fn sub(self, other: StatDelta) -> (r: Result<StatSnapshot, StatError>)
        ensures
            r == snapshot_rewound(self, other),
    {
        match check_cpus_match(self.cpu_id, other.cpu_id) {
            Err(e) => Err(e),
            Ok(()) => match self.counters.checked_sub(other.counters) {
                None => Err(StatError::CounterRegression),
                Some(counters) => match self.time.shifted_back(other.time) {
                    None => Err(StatError::TimeOutOfRange),
                    Some(time) => Ok(StatSnapshot { time, cpu_id: self.cpu_id, counters }),
                },
            },
        }
    }
}

impl SubSpecImpl<StatDelta> for StatSnapshot {
    open spec fn obeys_sub_spec() -> bool {
        true
    }

    open spec fn sub_req(self, other: StatDelta) -> bool {
        true
    }

    open spec fn sub_spec(self, other: StatDelta) -> Result<StatSnapshot, StatError> {
        snapshot_rewound(self, other)
    }
}

/// An exact share of a whole: `numer` parts out of `denom`.
#[derive(Debug, Clone, Copy, PartialEq, Eq, Structural)]
pub struct Fraction {
    pub numer: u64,
    pub denom: u64,
}

impl Fraction {
    /// The share lies between nothing and the whole, and the whole is not
    /// empty.
    pub open spec fn wf(self) -> bool {
        0 < self.denom && self.numer <= self.denom
    }

    /// The share as a number between 0 and 1.
    pub open spec fn value(self) -> real {
        self.numer as real / self.denom as real
    }
}

/// A delta normalised into shares of the time that was counted. It can only
/// be made from a delta that counted some time, so every share has a
/// denominator that is not zero.
#[derive(Debug, Clone, Copy, PartialEq, Eq, Structural)]
pub struct StatReport {
    duration: Duration,
    cpu_id: CpuId,
    counted: Counters,
    total: u64,
}

impl View for StatReport {
    type V = StatDelta;

    /// The delta that the report was made from.
    closed spec fn view(&self) -> StatDelta {
        StatDelta { time: self.duration, cpu_id: self.cpu_id, counters: self.counted }
    }
}

impl StatReport {
    #[verifier::type_invariant]
    spec fn inv(self) -> bool {
        self.total == self.counted.total() && self.total > 0
    }

    /// The share that `counter` units are of all the time the report counted.
    pub open spec fn share(self, counter: u32) -> Fraction {
        Fraction { numer: counter as u64, denom: self@.counters.total() as u64 }
    }

    /// The share of the counted time in which the processor was not idle:
    /// the whole less the idle units, over the whole.
    pub open spec fn used_share(self) -> Fraction {
        Fraction {
            numer: (self@.counters.total() - self@.counters.idle) as u64,
            denom: self@.counters.total() as u64,
        }
    }

    /// The report that a delta is normalised into, meaningful where the
    /// delta counted some time.
    pub closed spec fn of_delta(from: StatDelta) -> StatReport {
        StatReport {
            duration: from.time,
            cpu_id: from.cpu_id,
            counted: from.counters,
            total: from.counters.total() as u64,
        }
    }

    /// What normalising a delta gives: its report, or no report for a delta
    /// that counted no time at all.
    pub open spec fn normalized(from: StatDelta) -> Result<StatReport, StatError> {
        if from.counters.total() == 0 {
            Err(StatError::ZeroActivity)
        } else {
            Ok(Self::of_delta(from))
        }
    }

    /// The report of a delta is a view of that delta, and nothing else.
    pub proof fn lemma_of_delta_view(from: StatDelta)
        ensures
            Self::of_delta(from)@ == from,
    {
    }

    /// Normalises a delta. A delta that counted no time at all has no
    /// shares, and is refused.
    pub fn from_stat_delta(from: StatDelta) -> (r: Result<StatReport, StatError>)
        ensures
            r == Self::normalized(from),
            r matches Ok(report) ==> report@ == from,
    {
        let total: u64 = from.counters.sum();
        if total == 0 {
            Err(StatError::ZeroActivity)
        } else {
            Ok(
                StatReport {
                    duration: from.time,
                    cpu_id: from.cpu_id,
                    counted: from.counters,
                    total,
                },
            )
        }
    }

    /// The time that the report spans.
    pub fn duration(&self) -> (d: Duration)
        ensures
            d == self@.time,
    {
        self.duration
    }

    /// The processor that the report is about.
    pub fn cpu_id(&self) -> (id: CpuId)
        ensures
            id == self@.cpu_id,
    {
        self.cpu_id
    }

    /// The number of time units that the report counted, the denominator of
    /// every share.
    pub fn total(&self) -> (t: u64)
        ensures
            t == self@.counters.total(),
            t > 0,
    {
        proof {
            use_type_invariant(self);
        }
        self.total
    }

    /// The share of the counted time that went to `user`.
    pub fn user(&self) -> (f: Fraction)
        ensures
            f == self.share(self@.counters.user),
    {
        proof {
            use_type_invariant(self);
        }
        Fraction { numer: self.counted.user as u64, denom: self.total }
    }

    /// The share of the counted time that went to `nice`.
    pub fn nice(&self) -> (f: Fraction)
        ensures
            f == self.share(self@.counters.nice),
    {
        proof {
            use_type_invariant(self);
        }
        Fraction { numer: self.counted.nice as u64, denom: self.total }
    }

    /// The share of the counted time that went to `system`.
    pub fn system(&self) -> (f: Fraction)
        ensures
            f == self.share(self@.counters.system),
    {
        proof {
            use_type_invariant(self);
        }
        Fraction { numer: self.counted.system as u64, denom: self.total }
    }

    /// The share of the counted time that went to `idle`.
    pub fn idle(&self) -> (f: Fraction)
        ensures
            f == self.share(self@.counters.idle),
    {
        proof {
            use_type_invariant(self);
        }
        Fraction { numer: self.counted.idle as u64, denom: self.total }
    }

    /// The share of the counted time that went to `iowait`.
    pub fn iowait(&self) -> (f: Fraction)
        ensures
            f == self.share(self@.counters.iowait),
    {
        proof {
            use_type_invariant(self);
        }
        Fraction { numer: self.counted.iowait as u64, denom: self.total }
    }

    /// The share of the counted time that went to `irq`.
    pub fn irq(&self) -> (f: Fraction)
        ensures
            f == self.share(self@.counters.irq),
    {
        proof {
            use_type_invariant(self);
        }
        Fraction { numer: self.counted.irq as u64, denom: self.total }
    }

    /// The share of the counted time that went to `softirq`.
    pub fn softirq(&self) -> (f: Fraction)
        ensures
            f == self.share(self@.counters.softirq),
    {
        proof {
            use_type_invariant(self);
        }
        Fraction { numer: self.counted.softirq as u64, denom: self.total }
    }

    /// The share of the counted time in which the processor was not idle.
    pub fn total_used(&self) -> (f: Fraction)
        ensures
            f == self.used_share(),
    {
        proof {
            use_type_invariant(self);
        }
        Fraction { numer: self.total - self.counted.idle as u64, denom: self.total }
    }
}

/// What a sampling cycle gives for the reading `start` and the later reading
/// `end`: the report of what was counted between them, or the first reason
/// for which there is none.
pub open spec fn sampled(start: StatSnapshot, end: StatSnapshot) -> Result<StatReport, StatError> {
    match snapshot_difference(end, start) {
        Err(e) => Err(e),
        Ok(delta) => StatReport::normalized(delta),
    }
}

/// Computes the report of one sampling cycle from its two readings, `start`
/// taken before the wait and `end` after it.
pub fn monitor_stat(start: StatSnapshot, end: StatSnapshot) -> (r: Result<StatReport, StatError>)
    ensures
        r == sampled(start, end),
        r matches Ok(report) ==> snapshot_difference(end, start) == Ok::<StatDelta, StatError>(
            report@,
        ),
{
    match end - start {
        Err(e) => Err(e),
        Ok(delta) => StatReport::from_stat_delta(delta),
    }
}

/// Reads one line of the counter source as the snapshot taken now.
pub fn get_stat_snapshot(line: &[u8]) -> (r: Result<StatSnapshot, StatError>)
    ensures
        match r {
            Ok(snapshot) => snapshot.time.wf() && parse_line(line@, snapshot.time) == Ok::<
                StatSnapshot,
                StatError,
            >(snapshot),
            Err(e) => e == StatError::FormatError && !is_counter_line(line@),
        },
{
    let now = current_time();
    parse_cpu_line(line, now)
}

/// Two readings of the same processor, none of whose counters went
/// backwards, have a difference, and each of its counters is the later
/// counter less the earlier one.
pub proof fn lemma_difference_counts(later: StatSnapshot, earlier: StatSnapshot)
    requires
        later.cpu_id == earlier.cpu_id,
        later.counters.covers(earlier.counters),
    ensures
        snapshot_difference(later, earlier) is Ok,
        snapshot_difference(later, earlier)->Ok_0.cpu_id == later.cpu_id,
        snapshot_difference(later, earlier)->Ok_0.time.nanos == later.time.nanos()
            - earlier.time.nanos(),
        ({
            let d = snapshot_difference(later, earlier)->Ok_0.counters;
            let a = later.counters;
            let b = earlier.counters;
            &&& d.user == a.user - b.user
            &&& d.nice == a.nice - b.nice
            &&& d.system == a.system - b.system
            &&& d.idle == a.idle - b.idle
            &&& d.iowait == a.iowait - b.iowait
            &&& d.irq == a.irq - b.irq
            &&& d.softirq == a.softirq - b.softirq
        }),
{
    assert(-0x1_0000_0000_0000_0000_0000_0000 < later.time.nanos() - earlier.time.nanos()
        < 0x1_0000_0000_0000_0000_0000_0000) by (nonlinear_arith)
        requires
            i64::MIN <= later.time.sec <= i64::MAX,
            i64::MIN <= earlier.time.sec <= i64::MAX,
            i32::MIN <= later.time.nsec <= i32::MAX,
            i32::MIN <= earlier.time.nsec <= i32::MAX,
            later.time.nanos() == later.time.sec * 1_000_000_000 + later.time.nsec,
            earlier.time.nanos() == earlier.time.sec * 1_000_000_000 + earlier.time.nsec,
    ;
}

/// Readings of different processors have no difference: the attempt is an
/// identity mismatch that names both, whatever their counters are.
pub proof fn lemma_difference_of_strangers(later: StatSnapshot, earlier: StatSnapshot)
    requires
        later.cpu_id != earlier.cpu_id,
    ensures
        snapshot_difference(later, earlier) == Err::<StatDelta, StatError>(
            StatError::IdentityMismatch { left: later.cpu_id, right: earlier.cpu_id },
        ),
{
}

/// Readings of the same processor of which the earlier one has a counter
/// above the later one's have no difference: the counter went backwards.
pub proof fn lemma_difference_of_regressed(later: StatSnapshot, earlier: StatSnapshot)
    requires
        later.cpu_id == earlier.cpu_id,
        !later.counters.covers(earlier.counters),
    ensures
        snapshot_difference(later, earlier) == Err::<StatDelta, StatError>(
            StatError::CounterRegression,
        ),
{
}

/// A delta rebases the reading it was counted from onto the reading it was
/// counted to, and back.
pub proof fn lemma_rebase_round_trip(later: StatSnapshot, earlier: StatSnapshot)
    requires
        later.time.wf(),
        earlier.time.wf(),
        snapshot_difference(later, earlier) is Ok,
    ensures
        snapshot_advanced(earlier, snapshot_difference(later, earlier)->Ok_0) == Ok::<
            StatSnapshot,
            StatError,
        >(later),
        snapshot_rewound(later, snapshot_difference(later, earlier)->Ok_0) == Ok::<
            StatSnapshot,
            StatError,
        >(earlier),
{
    lemma_difference_counts(later, earlier);
    lemma_timestamp_at_nanos(later.time);
    lemma_timestamp_at_nanos(earlier.time);
}

/// A cycle whose two readings of one processor carry the same counters
/// counted no time: it ends in zero activity, not in a report.
pub proof fn lemma_same_counters_no_activity(start: StatSnapshot, end: StatSnapshot)
    requires
        start.cpu_id == end.cpu_id,
        start.counters == end.counters,
    ensures
        sampled(start, end) == Err::<StatReport, StatError>(StatError::ZeroActivity),
{
}

/// A delta all of whose counters are zero has no report: normalising it
/// ends in zero activity.
pub proof fn lemma_nothing_counted_no_report(from: StatDelta)
    requires
        from.counters == (Counters {
            user: 0,
            nice: 0,
            system: 0,
            idle: 0,
            iowait: 0,
            irq: 0,
            softirq: 0,
        }),
    ensures
        StatReport::normalized(from) == Err::<StatReport, StatError>(StatError::ZeroActivity),
{
}

/// A delta that counted nothing has no report; any other delta has one,
/// which is a view of that delta.
pub proof fn lemma_normalized(from: StatDelta)
    ensures
        from.counters.total() == 0 ==> StatReport::normalized(from) == Err::<
            StatReport,
            StatError,
        >(StatError::ZeroActivity),
        from.counters.total() > 0 ==> StatReport::normalized(from) is Ok
            && StatReport::normalized(from)->Ok_0@ == from,
{
    StatReport::lemma_of_delta_view(from);
}

/// A delta that counted some time has a report. Each of its seven shares
/// lies between nothing and the whole, and together they add up to the
/// whole, exactly: their numerators add up to their common denominator, and
/// their values to 1.
pub proof fn lemma_shares_sum_to_one(from: StatDelta)
    requires
        from.counters.total() > 0,
    ensures
        StatReport::normalized(from) is Ok,
        ({
            let r = StatReport::normalized(from)->Ok_0;
            let c = from.counters;
            &&& r@ == from
            &&& r.share(c.user).wf()
            &&& r.share(c.nice).wf()
            &&& r.share(c.system).wf()
            &&& r.share(c.idle).wf()
            &&& r.share(c.iowait).wf()
            &&& r.share(c.irq).wf()
            &&& r.share(c.softirq).wf()
            &&& r.share(c.user).numer + r.share(c.nice).numer + r.share(c.system).numer + r.share(
                c.idle,
            ).numer + r.share(c.iowait).numer + r.share(c.irq).numer + r.share(c.softirq).numer
                == r.share(c.user).denom
            &&& r.share(c.user).value() + r.share(c.nice).value() + r.share(c.system).value()
                + r.share(c.idle).value() + r.share(c.iowait).value() + r.share(c.irq).value()
                + r.share(c.softirq).value() == 1real
        }),
{
    StatReport::lemma_of_delta_view(from);
    let c = from.counters;
    let d = c.total() as real;
    assert(c.user as real / d + c.nice as real / d + c.system as real / d + c.idle as real / d
        + c.iowait as real / d + c.irq as real / d + c.softirq as real / d == 1real)
        by (nonlinear_arith)
        requires
            d > 0real,
            d == c.user as real + c.nice as real + c.system as real + c.idle as real
                + c.iowait as real + c.irq as real + c.softirq as real,
    ;
}

/// In the report of a delta that counted some time, the used share and the
/// idle share add up to the whole, exactly.
pub proof fn lemma_used_and_idle_are_whole(from: StatDelta)
    requires
        from.counters.total() > 0,
    ensures
        StatReport::normalized(from) is Ok,
        ({
            let r = StatReport::normalized(from)->Ok_0;
            &&& r.used_share().wf()
            &&& r.used_share().numer + r.share(from.counters.idle).numer == r.used_share().denom
            &&& r.used_share().denom == r.share(from.counters.idle).denom
            &&& r.used_share().value() + r.share(from.counters.idle).value() == 1real
        }),
{
    StatReport::lemma_of_delta_view(from);
    let d = from.counters.total() as real;
    let i = from.counters.idle as real;
    assert((d - i) / d + i / d == 1real) by (nonlinear_arith)
        requires
            d > 0real,
    ;
}

} // verus!
