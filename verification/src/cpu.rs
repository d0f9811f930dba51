use vstd::prelude::*;
use crate::error::StatError;

verus! {

/// Which processor a reading belongs to: the combined line of all cores, or
/// one core by its index.
#[derive(Debug, Clone, Copy, PartialEq, Eq, Structural)]
pub enum CpuId {
    Aggregate,
    Core(u32),
}

/// The seven cumulative time counters of one processor line, in the order
/// in which the kernel prints them.
#[derive(Debug, Clone, Copy, PartialEq, Eq, Structural)]
pub struct Counters {
    pub user: u32,
    pub nice: u32,
    pub system: u32,
    pub idle: u32,
    pub iowait: u32,
    pub irq: u32,
    pub softirq: u32,
}

impl Counters {
    /// The sum of the seven counters.
    pub open spec fn total(self) -> int {
        self.user + self.nice + self.system + self.idle + self.iowait + self.irq + self.softirq
    }

    /// No counter of `self` is smaller than the same counter of `other`.
    pub open spec fn covers(self, other: Counters) -> bool {
        &&& self.user >= other.user
        &&& self.nice >= other.nice
        &&& self.system >= other.system
        &&& self.idle >= other.idle
        &&& self.iowait >= other.iowait
        &&& self.irq >= other.irq
        &&& self.softirq >= other.softirq
    }

    /// No counter of `self` added to the same counter of `other` leaves the
    /// counter range.
    pub open spec fn fits_with(self, other: Counters) -> bool {
        &&& self.user + other.user <= u32::MAX
        &&& self.nice + other.nice <= u32::MAX
        &&& self.system + other.system <= u32::MAX
        &&& self.idle + other.idle <= u32::MAX
        &&& self.iowait + other.iowait <= u32::MAX
        &&& self.irq + other.irq <= u32::MAX
        &&& self.softirq + other.softirq <= u32::MAX
    }

    /// The counter-wise difference, meaningful where `self.covers(other)`.
    pub open spec fn minus(self, other: Counters) -> Counters {
        Counters {
            user: (self.user - other.user) as u32,
            nice: (self.nice - other.nice) as u32,
            system: (self.system - other.system) as u32,
            idle: (self.idle - other.idle) as u32,
            iowait: (self.iowait - other.iowait) as u32,
            irq: (self.irq - other.irq) as u32,
            softirq: (self.softirq - other.softirq) as u32,
        }
    }

    /// The counter-wise sum, meaningful where `self.fits_with(other)`.
    pub open spec fn plus(self, other: Counters) -> Counters {
        Counters {
            user: (self.user + other.user) as u32,
            nice: (self.nice + other.nice) as u32,
            system: (self.system + other.system) as u32,
            idle: (self.idle + other.idle) as u32,
            iowait: (self.iowait + other.iowait) as u32,
            irq: (self.irq + other.irq) as u32,
            softirq: (self.softirq + other.softirq) as u32,
        }
    }

    /// Subtracts counter by counter; `None` as soon as one counter of `other`
    /// exceeds the one of `self`.
    pub fn checked_sub(self, other: Counters) -> (r: Option<Counters>)
        ensures
            self.covers(other) ==> r == Some(self.minus(other)),
            !self.covers(other) ==> r is None,
    {
        if self.user >= other.user
            && self.nice >= other.nice
            && self.system >= other.system
            && self.idle >= other.idle
            && self.iowait >= other.iowait
            && self.irq >= other.irq
            && self.softirq >= other.softirq
        {
            Some(
                Counters {
                    user: self.user - other.user,
                    nice: self.nice - other.nice,
                    system: self.system - other.system,
                    idle: self.idle - other.idle,
                    iowait: self.iowait - other.iowait,
                    irq: self.irq - other.irq,
                    softirq: self.softirq - other.softirq,
                },
            )
        } else {
            None
        }
    }

    /// Adds counter by counter; `None` as soon as one sum would wrap around.
    pub fn checked_add(self, other: Counters) -> (r: Option<Counters>)
        ensures
            self.fits_with(other) ==> r == Some(self.plus(other)),
            !self.fits_with(other) ==> r is None,
    {
        if self.user <= u32::MAX - other.user
            && self.nice <= u32::MAX - other.nice
            && self.system <= u32::MAX - other.system
            && self.idle <= u32::MAX - other.idle
            && self.iowait <= u32::MAX - other.iowait
            && self.irq <= u32::MAX - other.irq
            && self.softirq <= u32::MAX - other.softirq
        {
            Some(
                Counters {
                    user: self.user + other.user,
                    nice: self.nice + other.nice,
                    system: self.system + other.system,
                    idle: self.idle + other.idle,
                    iowait: self.iowait + other.iowait,
                    irq: self.irq + other.irq,
                    softirq: self.softirq + other.softirq,
                },
            )
        } else {
            None
        }
    }

    /// The sum of the seven counters, which always fits 64 bits.
    pub fn sum(self) -> (r: u64)
        ensures
            r == self.total(),
    {
        self.user as u64
            + self.nice as u64
            + self.system as u64
            + self.idle as u64
            + self.iowait as u64
            + self.irq as u64
            + self.softirq as u64
    }
}

/// Checks that two readings belong to the same processor, and names both
/// identities when they do not.
pub fn check_cpus_match(cpu0: CpuId, cpu1: CpuId) -> (r: Result<(), StatError>)
    ensures
        cpu0 == cpu1 ==> r == Ok::<(), StatError>(()),
        cpu0 != cpu1 ==> r == Err::<(), StatError>(
            StatError::IdentityMismatch { left: cpu0, right: cpu1 },
        ),
{
    if cpu0 == cpu1 {
        Ok(())
    } else {
        Err(StatError::IdentityMismatch { left: cpu0, right: cpu1 })
    }
}

} // verus!
