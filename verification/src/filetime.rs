//! Windows file times.

use vstd::prelude::*;

verus! {

/// The number of milliseconds from 1601-01-01 to 1970-01-01.
pub const UNIX_EPOCH_MILLIS: i64 = 11_644_473_600_000;

/// A point in time, as the number of 100-nanosecond intervals since
/// 1601-01-01T00:00:00 UTC.
#[derive(Clone, Copy, Debug, PartialEq, Eq, Structural)]
pub struct FileTime {
    pub ticks: u64,
}

impl FileTime {
    /// The time stored as `ticks`, or `None` for zero, which in a shell link
    /// means that no time was recorded.
    pub open spec fn spec_from_ticks(ticks: u64) -> Option<FileTime> {
        if ticks == 0 {
            None
        } else {
            Some(FileTime { ticks })
        }
    }

    /// The time stored as `ticks`, or `None` for zero, which in a shell link
    /// means that no time was recorded.
    pub fn from_ticks(ticks: u64) -> (time: Option<FileTime>)
        ensures
            time == Self::spec_from_ticks(ticks),
    {
        if ticks == 0 {
            None
        } else {
            Some(FileTime { ticks })
        }
    }

    /// Whole milliseconds since 1970-01-01T00:00:00 UTC; negative before it.
    pub open spec fn spec_unix_millis(&self) -> int {
        self.ticks as int / 10_000 - UNIX_EPOCH_MILLIS as int
    }

    /// Whole milliseconds since 1970-01-01T00:00:00 UTC; negative before it.
    pub fn unix_millis(&self) -> (millis: i64)
        ensures
            millis == self.spec_unix_millis(),
    {
        let since_1601: u64 = self.ticks / 10_000;
        since_1601 as i64 - UNIX_EPOCH_MILLIS
    }
}

} // verus!
