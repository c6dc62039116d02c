//! Plain values that stand for the times and decimal amounts the service stores.

use vstd::prelude::*;

verus! {

/// A point in time with the UTC offset it was written with, as the service
/// stores it (`timestamp with time zone`).
#[derive(Clone, Copy, Debug)]
pub struct Timestamp {
    /// Seconds since the Unix epoch, in UTC.
    pub unix_seconds: i64,
    /// Nanoseconds past `unix_seconds`.
    pub nanos: u32,
    /// Offset east of UTC, in seconds, that the time is shown in.
    pub offset_seconds: i32,
}

/// A decimal amount of money: `mantissa / 10^scale`.
#[derive(Clone, Copy, Debug)]
pub struct Amount {
    pub mantissa: i128,
    pub scale: u32,
}

} // verus!
