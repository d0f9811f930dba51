use vstd::prelude::*;

verus! {

/// Nanoseconds in one second.
pub const NANOS_PER_SEC: i32 = 1_000_000_000;

/// A point in time: whole seconds since the epoch and the nanoseconds
/// into that second.
#[derive(Debug, Clone, Copy, PartialEq, Eq, Structural)]
pub struct Timestamp {
    pub sec: i64,
    pub nsec: i32,
}

/// A signed span of time in nanoseconds, wide enough for the difference of
/// any two timestamps.
#[derive(Debug, Clone, Copy, PartialEq, Eq, Structural)]
pub struct Duration {
    pub nanos: i128,
}

impl Timestamp {
    /// The nanosecond part lies within one second.
    pub open spec fn wf(self) -> bool {
        0 <= self.nsec < NANOS_PER_SEC
    }

    /// Nanoseconds since the epoch.
    pub open spec fn nanos(self) -> int {
        self.sec * NANOS_PER_SEC + self.nsec
    }

    /// The span from `earlier` to `self`; negative when `self` comes first.
    pub fn since(self, earlier: Timestamp) -> (d: Duration)
        ensures
            d.nanos == self.nanos() - earlier.nanos(),
    {
        let here: i128 = self.sec as i128 * NANOS_PER_SEC as i128 + self.nsec as i128;
        let there: i128 = earlier.sec as i128 * NANOS_PER_SEC as i128 + earlier.nsec as i128;
        Duration { nanos: here - there }
    }

    /// The timestamp `by` later, unless it cannot be represented.
    pub fn shifted(self, by: Duration) -> (r: Option<Timestamp>)
        ensures
            representable(self.nanos() + by.nanos) ==> r == Some(
                timestamp_at(self.nanos() + by.nanos),
            ),
            !representable(self.nanos() + by.nanos) ==> r is None,
    {
        let here: i128 = self.sec as i128 * NANOS_PER_SEC as i128 + self.nsec as i128;
        match here.checked_add(by.nanos) {
            Some(total) => timestamp_of_nanos(total),
            None => None,
        }
    }

    /// The timestamp `by` earlier, unless it cannot be represented.
    pub fn shifted_back(self, by: Duration) -> (r: Option<Timestamp>)
        ensures
            representable(self.nanos() - by.nanos) ==> r == Some(
                timestamp_at(self.nanos() - by.nanos),
            ),
            !representable(self.nanos() - by.nanos) ==> r is None,
    {
        let here: i128 = self.sec as i128 * NANOS_PER_SEC as i128 + self.nsec as i128;
        match here.checked_sub(by.nanos) {
            Some(total) => timestamp_of_nanos(total),
            None => None,
        }
    }
}

/// Reads the system clock with `time::get_time`, which builds its result with
/// `Timespec::new`; that constructor accepts only a nanosecond part within one
/// second, which is all that is claimed here.
#[verifier::external_body]
pub(crate) fn current_time() -> (now: Timestamp)
    ensures
        now.wf(),
{
    let t = time::get_time();
    Timestamp { sec: t.sec, nsec: t.nsec }
}

/// A count of nanoseconds since the epoch whose whole seconds fit a timestamp.
pub open spec fn representable(nanos: int) -> bool {
    i64::MIN * NANOS_PER_SEC <= nanos < (i64::MAX + 1) * NANOS_PER_SEC
}

/// The well-formed timestamp that lies `nanos` nanoseconds after the epoch,
/// where there is one.
pub open spec fn timestamp_at(nanos: int) -> Timestamp {
    Timestamp {
        sec: (nanos / NANOS_PER_SEC as int) as i64,
        nsec: (nanos % NANOS_PER_SEC as int) as i32,
    }
}

/// The well-formed timestamp that lies `nanos` nanoseconds after the epoch.
pub fn timestamp_of_nanos(nanos: i128) -> (r: Option<Timestamp>)
    ensures
        representable(nanos as int) ==> r == Some(timestamp_at(nanos as int)),
        !representable(nanos as int) ==> r is None,
{
    let per_sec: i128 = NANOS_PER_SEC as i128;
    if nanos >= 0 {
        let q: i128 = nanos / per_sec;
        let rem: i128 = nanos % per_sec;
        if q > i64::MAX as i128 {
            None
        } else {
            Some(Timestamp { sec: q as i64, nsec: rem as i32 })
        }
    } else {
        let below: i128 = -(nanos + 1);
        let q: i128 = below / per_sec;
        let rem: i128 = below % per_sec;
        if q > i64::MAX as i128 {
            None
        } else {
            Some(Timestamp { sec: (-q - 1) as i64, nsec: (per_sec - 1 - rem) as i32 })
        }
    }
}

/// The timestamp at a representable count of nanoseconds is well-formed and
/// lies that many nanoseconds after the epoch.
pub proof fn lemma_timestamp_at(nanos: int)
    requires
        representable(nanos),
    ensures
        timestamp_at(nanos).wf(),
        timestamp_at(nanos).nanos() == nanos,
{
}

/// A well-formed timestamp is the one that lies its own count of nanoseconds
/// after the epoch, and that count is representable.
pub proof fn lemma_timestamp_at_nanos(t: Timestamp)
    requires
        t.wf(),
    ensures
        representable(t.nanos()),
        timestamp_at(t.nanos()) == t,
{
}

} // verus!
