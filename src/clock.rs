use vstd::prelude::*;

verus! {

/// Nanoseconds in one second.
pub const NANOS_PER_SECOND: u32 = 1_000_000_000;

/// A UTC instant: whole seconds since the Unix epoch and the nanoseconds
/// within that second.
#[derive(Clone, Copy, Debug, PartialEq, Eq, Structural)]
pub struct Timestamp {
    pub seconds: i64,
    pub nanosecond: u32,
}

impl Timestamp {
    /// The nanosecond part lies within one second.
    pub open spec fn wf(&self) -> bool {
        self.nanosecond < NANOS_PER_SECOND
    }

    /// The instant as nanoseconds since the Unix epoch.
    pub open spec fn nanos(&self) -> int {
        self.seconds * 1_000_000_000 + self.nanosecond
    }

    /// Builds an instant; `None` where the nanosecond part is a second or more.
    pub fn new(seconds: i64, nanosecond: u32) -> (r: Option<Timestamp>)
        ensures
            nanosecond < NANOS_PER_SECOND <==> r is Some,
            r matches Some(t) ==> t.seconds == seconds && t.nanosecond == nanosecond && t.wf(),
    {
        if nanosecond < NANOS_PER_SECOND {
            Some(Timestamp { seconds, nanosecond })
        } else {
            None
        }
    }
}

/// The nanoseconds from `start` to `end`, or zero where `end` does not come
/// after `start`.
pub open spec fn elapsed_nanos(start: Timestamp, end: Timestamp) -> int {
    if end.nanos() > start.nanos() {
        end.nanos() - start.nanos()
    } else {
        0
    }
}

/// The time that passed from `start` to `end` in nanoseconds; a clock that
/// went back gives zero.
pub fn elapsed(start: Timestamp, end: Timestamp) -> (r: u128)
    ensures
        r == elapsed_nanos(start, end),
{
    let diff_secs: i128 = end.seconds as i128 - start.seconds as i128;
    assert(-0x1_0000_0000_0000_0000 < diff_secs < 0x1_0000_0000_0000_0000);
    let scaled: i128 = diff_secs * 1_000_000_000;
    let total: i128 = scaled + end.nanosecond as i128 - start.nanosecond as i128;
    assert(total == end.nanos() - start.nanos()) by (nonlinear_arith)
        requires
            diff_secs == end.seconds - start.seconds,
            scaled == diff_secs * 1_000_000_000,
            total == scaled + end.nanosecond - start.nanosecond,
    ;
    if total > 0 {
        total as u128
    } else {
        0
    }
}

/// Relies on `time::OffsetDateTime::now_utc` for the current instant, read
/// through its `unix_timestamp` and `nanosecond` (documented to lie in
/// `0..1_000_000_000`).
#[verifier::external_body]
pub(crate) fn now() -> (r: Timestamp)
    ensures
        r.wf(),
{
    let t = time::OffsetDateTime::now_utc();
    Timestamp { seconds: t.unix_timestamp(), nanosecond: t.nanosecond() }
}

} // verus!
