//! Block timestamps: time since the Unix epoch.
use vstd::prelude::*;
use crate::block::Block;

verus! {

/// Time elapsed since the Unix epoch, in whole seconds and the nanoseconds past them.
#[derive(Clone, Copy, Debug, PartialEq, Eq, Structural)]
pub struct Timestamp {
    pub secs: u64,
    pub nanos: u32,
}

pub const NANOS_PER_SEC: u32 = 1_000_000_000;

impl Timestamp {
    /// The sub-second part is below one second.
    pub open spec fn wf(&self) -> bool {
        self.nanos < NANOS_PER_SEC
    }

    /// Whole microseconds since the epoch.
    pub open spec fn micros(&self) -> nat {
        self.secs as nat * 1_000_000 + self.nanos as nat / 1000
    }

    pub fn new(secs: u64, nanos: u32) -> (r: Timestamp)
        requires
            nanos < NANOS_PER_SEC,
        ensures
            r.secs == secs,
            r.nanos == nanos,
            r.wf(),
    {
        Timestamp { secs, nanos }
    }

    /// The epoch itself.
    pub fn zero() -> (r: Timestamp)
        ensures
            r.secs == 0,
            r.nanos == 0,
            r.micros() == 0,
            r.wf(),
    {
        Timestamp { secs: 0, nanos: 0 }
    }

    /// Whole microseconds since the epoch.
    pub fn as_micros(&self) -> (r: u128)
        ensures
            r as nat == self.micros(),
    {
        assert(self.secs as nat * 1_000_000 < 0x1_0000_0000_0000_0000 * 1_000_000) by (nonlinear_arith);
        (self.secs as u128) * 1_000_000 + (self.nanos / 1000) as u128
    }
}

#[verifier::external_type_specification]
#[verifier::external_body]
pub struct ExSystemTimeError(std::time::SystemTimeError);

/// Relies on `SystemTime::elapsed` of the Unix epoch: the time now as a
/// duration since the epoch, whose sub-second part is below one second; it
/// fails when the clock stands before the epoch.
#[verifier::external_body]
pub fn get_current_timestamp() -> (r: Result<Timestamp, std::time::SystemTimeError>)
    ensures
        r is Ok ==> r->Ok_0.wf(),
{
    match std::time::SystemTime::UNIX_EPOCH.elapsed() {
        Ok(d) => Ok(Timestamp { secs: d.as_secs(), nanos: d.subsec_nanos() }),
        Err(e) => Err(e),
    }
}

} // verus!

verus! {

/// Nanoseconds of the allowed clock drift between blocks and against now.
pub const DRIFT_NANOS: u128 = 60_000_000_000;

impl Timestamp {
    /// Whole nanoseconds since the epoch.
    pub open spec fn total_nanos(&self) -> nat {
        self.secs as nat * 1_000_000_000 + self.nanos as nat
    }

    /// Whole nanoseconds since the epoch.
    pub fn as_nanos(&self) -> (r: u128)
        ensures
            r as nat == self.total_nanos(),
    {
        assert(self.secs as nat * 1_000_000_000 < 0x1_0000_0000_0000_0000 * 1_000_000_000)
            by (nonlinear_arith);
        (self.secs as u128) * 1_000_000_000 + self.nanos as u128
    }
}

/// A new block's time is plausible: later than a minute before its
/// predecessor's, and earlier than a minute after now.
pub open spec fn plausible_time(new: Timestamp, previous: Timestamp, now: Timestamp) -> bool {
    previous.total_nanos() < new.total_nanos() + DRIFT_NANOS && new.total_nanos()
        < now.total_nanos() + DRIFT_NANOS
}

/// Whether a new block's time is plausible against its predecessor and `now`.
pub fn timestamp_within(new: &Timestamp, previous: &Timestamp, now: &Timestamp) -> (r: bool)
    ensures
        r == plausible_time(*new, *previous, *now),
{
    let n = new.as_nanos();
    let p = previous.as_nanos();
    let c = now.as_nanos();
    assert(n < u128::MAX / 2 && p < u128::MAX / 2 && c < u128::MAX / 2) by (nonlinear_arith)
        requires
            n == new.total_nanos(),
            p == previous.total_nanos(),
            c == now.total_nanos(),
    ;
    p < n + DRIFT_NANOS && n < c + DRIFT_NANOS
}

/// Whether a new block's time is plausible against its predecessor and the
/// clock; fails when the clock stands before the epoch.
pub fn is_valid_timestamp(new_block: &Block, previous_block: &Block) -> (r: Result<
    bool,
    std::time::SystemTimeError,
>)
    ensures
        r is Ok ==> exists|now: Timestamp|
            #[trigger] now.wf() && r->Ok_0 == plausible_time(
                new_block.timestamp,
                previous_block.timestamp,
                now,
            ),
{
    let now = get_current_timestamp()?;
    Ok(timestamp_within(&new_block.timestamp, &previous_block.timestamp, &now))
}

} // verus!
