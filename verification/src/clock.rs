//! The virtual-clock interface: the offsets written to the time
//! configuration file consumed by the time-virtualization preload. After a
//! restore the application must observe, on `CLOCK_MONOTONIC` and
//! `CLOCK_BOOTTIME`, exactly the clock value it had at checkpoint.

use vstd::prelude::*;
use vstd::string::StringExecFns;
use crate::decimal::dec_str_signed;
use crate::decimal::i64_to_string;
use crate::error::Error;
use crate::error::ErrorKind;

verus! {

/// Nanoseconds, as the virtual clock counts them.
pub type Nanos = i64;

/// The per-clock offsets added to the host's raw readings by the
/// virtualization preload.
#[derive(Clone, Copy, Debug, PartialEq, Eq, Structural)]
pub struct ClockOffsets {
    pub monotonic_offset: Nanos,
    pub boottime_offset: Nanos,
}

/// The offsets a cold start writes: zero, so the application starts its
/// virtual clock at the host's.
pub fn initial_offsets() -> (r: ClockOffsets)
    ensures
        r.monotonic_offset == 0,
        r.boottime_offset == 0,
{
    ClockOffsets { monotonic_offset: 0, boottime_offset: 0 }
}

/// Computes the offsets to re-write after a restore, given the clock value
/// the application observed at checkpoint and the host's current raw
/// readings: each virtualized reading continues exactly at `app_clock`, so
/// the application sees continuous time across the checkpoint gap. Fails
/// only when an offset does not fit the clock's range.
pub fn adjust_timespecs(app_clock: Nanos, raw_monotonic: Nanos, raw_boottime: Nanos) -> (r: Result<
    ClockOffsets,
    Error,
>)
    ensures
        match r {
            Ok(o) => raw_monotonic + o.monotonic_offset == app_clock && raw_boottime
                + o.boottime_offset == app_clock,
            Err(e) => e.kind == ErrorKind::ConfigError && e.exit_code
                == crate::consts::EXIT_CODE_RESTORE_FAILURE,
        },
        r is Ok <==> (i64::MIN <= app_clock - raw_monotonic <= i64::MAX && i64::MIN <= app_clock
            - raw_boottime <= i64::MAX),
{
    let monotonic_offset = match app_clock.checked_sub(raw_monotonic) {
        Option::Some(o) => o,
        Option::None => {
            return Err(Error::restore_failure(ErrorKind::ConfigError));
        },
    };
    let boottime_offset = match app_clock.checked_sub(raw_boottime) {
        Option::Some(o) => o,
        Option::None => {
            return Err(Error::restore_failure(ErrorKind::ConfigError));
        },
    };
    Ok(ClockOffsets { monotonic_offset, boottime_offset })
}

/// The content of the time configuration file the virtualization preload
/// reads: one labelled offset per clock, in nanoseconds.
pub open spec fn time_conf_content_spec(o: ClockOffsets) -> Seq<char> {
    "monotonic "@ + dec_str_signed(o.monotonic_offset as int) + "\nboottime "@ + dec_str_signed(
        o.boottime_offset as int,
    ) + "\n"@
}

/// Renders the time configuration file.
pub fn time_conf_content(o: &ClockOffsets) -> (r: String)
    ensures
        r@ == time_conf_content_spec(*o),
{
    let mut r = String::from_str("monotonic ");
    let mono = i64_to_string(o.monotonic_offset);
    r.append(mono.as_str());
    r.append("\nboottime ");
    let boot = i64_to_string(o.boottime_offset);
    r.append(boot.as_str());
    r.append("\n");
    proof {
        assert(r@ =~= time_conf_content_spec(*o));
    }
    r
}

} // verus!
