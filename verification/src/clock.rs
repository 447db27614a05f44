//! The Unix time.
use vstd::prelude::*;

use crate::outside::{epoch_time, since_epoch, system_now};

verus! {

/// The whole seconds of a reading, with a clock that lies before the epoch
/// read as zero.
pub open spec fn secs_or_zero(reading: Option<(u64, u32)>) -> u64 {
    match reading {
        Some((secs, _)) => secs,
        None => 0,
    }
}

/// The whole seconds of a reading in seconds and nanoseconds, with a clock that
/// lies before the epoch read as zero.
pub fn reading_secs(reading: Option<(u64, u32)>) -> (r: u64)
    ensures
        r == secs_or_zero(reading),
{
    match reading {
        Some((secs, _)) => secs,
        None => 0,
    }
}

/// The seconds since the Unix epoch, by the machine's clock.
pub fn now_secs() -> (r: u64)
    ensures
        exists|t: std::time::SystemTime| r == secs_or_zero(#[trigger] epoch_time(t)),
{
    let t = system_now();
    let r: u64 = reading_secs(since_epoch(&t));
    assert(r == secs_or_zero(epoch_time(t)));
    r
}

/// A reading counts its whole seconds, however many nanoseconds lie beyond them;
/// a clock that lies before the epoch counts as zero.
pub proof fn whole_seconds_count(secs: u64, nanos: u32)
    ensures
        secs_or_zero(Some((secs, nanos))) == secs,
        secs_or_zero(None) == 0,
{
}

} // verus!
