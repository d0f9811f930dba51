use vstd::prelude::*;
use crate::cpu::CpuId;

verus! {

/// Why a sampling step could not produce its value.
#[derive(Debug, Clone, Copy, PartialEq, Eq, Structural)]
pub enum StatError {
    /// The counter source could not be opened or read.
    SourceUnavailable,
    /// A line does not have the shape of a cumulative counter line, or one
    /// of its numbers does not fit the counter type.
    FormatError,
    /// Arithmetic was attempted between readings of different processors.
    IdentityMismatch { left: CpuId, right: CpuId },
    /// A counter would leave its range: a later value is smaller than an
    /// earlier one, or a rebased value would wrap around.
    CounterRegression,
    /// No time at all was counted over the interval.
    ZeroActivity,
    /// A rebased timestamp would leave the representable range.
    TimeOutOfRange,
}

} // verus!
