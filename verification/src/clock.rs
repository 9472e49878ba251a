//! Wall-clock time, counted from the Unix epoch.
use std::time::{SystemTime, SystemTimeError};
use vstd::prelude::*;

verus! {

/// Nanoseconds in one second.
pub const NANOS_PER_SEC: u32 = 1_000_000_000;

/// Nanoseconds in one millisecond.
pub const NANOS_PER_MILLI: u32 = 1_000_000;

/// A span of time since the Unix epoch.
#[derive(Clone, Copy, Debug, PartialEq, Eq, Structural)]
pub struct UnixTime {
    /// Whole seconds.
    pub secs: u64,
    /// What remains below one second, in nanoseconds.
    pub nanos: u32,
}

impl UnixTime {
    /// The part below one second stays below one second.
    pub open spec fn wf(self) -> bool {
        self.nanos < NANOS_PER_SEC
    }

    /// The span in whole milliseconds.
    pub open spec fn millis(self) -> int {
        self.secs * 1000 + (self.nanos / NANOS_PER_MILLI) as int
    }

    /// The span in whole milliseconds.
    pub fn as_millis(&self) -> (millis: u128)
        ensures
            millis == self.millis(),
    {
        self.secs as u128 * 1000 + (self.nanos / NANOS_PER_MILLI) as u128
    }
}

/// Seconds and remaining nanoseconds from the Unix epoch to a moment, or nothing where
/// the moment lies before the epoch.
pub uninterp spec fn span_since_epoch(moment: SystemTime) -> Option<(u64, u32)>;

/// `std::time::SystemTime::duration_since` the Unix epoch: the span from the epoch to
/// the moment, as whole seconds and the nanoseconds below one second, or an error where
/// the moment lies before the epoch. What the error says is left open.
#[verifier::external_body]
fn duration_since_epoch(moment: SystemTime) -> (span: Result<(u64, u32), SystemTimeError>)
    ensures
        span matches Ok(parts) ==> span_since_epoch(moment) == Some(parts),
        span matches Ok(parts) ==> parts.1 < NANOS_PER_SEC,
        span is Err ==> span_since_epoch(moment) is None,
{
    let span = moment.duration_since(SystemTime::UNIX_EPOCH)?;
    Ok((span.as_secs(), span.subsec_nanos()))
}

/// What the clock reads at a moment: the time since the Unix epoch, or nothing where the
/// moment lies before it.
pub open spec fn reading_at(moment: SystemTime) -> Option<UnixTime> {
    match span_since_epoch(moment) {
        Some((secs, nanos)) => Some(UnixTime { secs, nanos }),
        None => None,
    }
}

/// The time since the Unix epoch at a moment, or nothing where the moment lies before it.
pub fn unix_timestamp_at(moment: SystemTime) -> (timestamp: Option<UnixTime>)
    ensures
        timestamp == reading_at(moment),
        timestamp matches Some(t) ==> t.wf(),
{
    match duration_since_epoch(moment) {
        Ok((secs, nanos)) => Some(UnixTime { secs, nanos }),
        Err(_) => None,
    }
}

/// The time since the Unix epoch now, or nothing where the clock stands before it.
pub fn unix_timestamp() -> (timestamp: Option<UnixTime>)
    ensures
        exists|now: SystemTime| timestamp == #[trigger] reading_at(now),
        timestamp matches Some(t) ==> t.wf(),
{
    let now = SystemTime::now();
    unix_timestamp_at(now)
}

/// The millisecond count that a clock reading stands for; zero for no reading.
pub open spec fn millis_of(reading: Option<UnixTime>) -> int {
    match reading {
        Some(t) => t.millis(),
        None => 0,
    }
}

/// Turns a clock reading into a millisecond count; no reading counts as zero.
pub fn timestamp_millis(reading: Option<UnixTime>) -> (millis: u128)
    ensures
        millis == millis_of(reading),
{
    match reading {
        Some(t) => t.as_millis(),
        None => 0,
    }
}

/// Milliseconds since the Unix epoch; zero where the clock stands before it.
pub fn unix_timestamp_ms() -> (millis: u128)
    ensures
        exists|now: SystemTime|
            {
                &&& millis == millis_of(#[trigger] reading_at(now))
                &&& (reading_at(now) matches Some(t) ==> t.wf())
            },
{
    let reading = unix_timestamp();
    timestamp_millis(reading)
}

/// Of two readings the later one never has the smaller millisecond count.
pub proof fn law_millis_follow_the_clock(earlier: UnixTime, later: UnixTime)
    requires
        earlier.wf(),
        later.wf(),
        earlier.secs < later.secs || (earlier.secs == later.secs && earlier.nanos <= later.nanos),
    ensures
        millis_of(Some(earlier)) <= millis_of(Some(later)),
{
    assert(earlier.nanos / NANOS_PER_MILLI < 1000);
}

/// The millisecond count of a span is the largest one that does not exceed it.
pub proof fn law_millis_are_the_whole_ones(span: UnixTime)
    ensures
        millis_of(Some(span)) * 1_000_000 <= span.secs * 1_000_000_000 + span.nanos,
        span.secs * 1_000_000_000 + span.nanos < (millis_of(Some(span)) + 1) * 1_000_000,
        millis_of(None) == 0,
{
}

/// A reading is there exactly where the moment has a span from the epoch, and is that span
/// to the nanosecond.
pub proof fn law_readings_are_spans(moment: SystemTime)
    ensures
        reading_at(moment) is Some <==> span_since_epoch(moment) is Some,
        reading_at(moment) is Some ==> {
            &&& reading_at(moment)->0.secs == (span_since_epoch(moment)->0).0
            &&& reading_at(moment)->0.nanos == (span_since_epoch(moment)->0).1
        },
        reading_at(moment) is Some ==> (reading_at(moment)->0.wf() <==> (span_since_epoch(
            moment,
        )->0).1 < 1_000_000_000),
{
}

} // verus!
