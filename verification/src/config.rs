use vstd::prelude::*;

use crate::text::{parse_u64, parse_u8, parse_unsigned};

verus! {

/// The address the service listens on when `BIND_ADDR` is unset or unreadable.
pub const DEFAULT_BIND_ADDR: &'static str = "0.0.0.0:8080";

/// Where captures are saved when `CAPTURE_DIR` is unset.
pub const DEFAULT_CAPTURE_DIR: &'static str = "captures";

/// The database file, inside the capture directory, when `CAPTURE_DB_PATH` is unset.
pub const DEFAULT_CAPTURE_DB_FILE: &'static str = "captures.db";

/// Seconds to wait for camera events.
pub const DEFAULT_CAPTURE_EVENT_TIMEOUT_SECS: u64 = 20;

/// Seconds a request may take.
pub const DEFAULT_REQUEST_TIMEOUT_SECS: u64 = 900;

/// Retries after a lost camera link.
pub const DEFAULT_CAMERA_RETRIES: u8 = 2;

/// Free space the capture directory should keep.
pub const DEFAULT_MIN_FREE_SPACE_BYTES: u64 = 512 * 1024 * 1024;

/// Seconds a fetched capture is kept.
pub const DEFAULT_DOWNLOADED_RETENTION_SECS: u64 = 24 * 60 * 60;

/// Seconds between retention sweeps.
pub const DEFAULT_RETENTION_SWEEP_INTERVAL_SECS: u64 = 10 * 60;

/// Seconds between camera keep-alive probes; 0 turns them off.
pub const DEFAULT_KEEPALIVE_INTERVAL_SECS: u64 = 2 * 60;

/// The shortest period between retention sweeps.
pub const MIN_RETENTION_SWEEP_INTERVAL_SECS: u64 = 30;

/// A numeric setting: the environment's text when it reads as a number, else
/// the default.
pub fn number_setting(raw: Option<&str>, default: u64) -> (r: u64)
    ensures
        match raw {
            Some(s) => match parse_unsigned(s@, u64::MAX as nat) {
                Some(v) => r == v,
                None => r == default,
            },
            None => r == default,
        },
{
    match raw {
        Some(s) => match parse_u64(s) {
            Some(v) => v,
            None => default,
        },
        None => default,
    }
}

/// A small numeric setting (0 to 255): the environment's text when it reads as
/// such a number, else the default.
pub fn small_number_setting(raw: Option<&str>, default: u8) -> (r: u8)
    ensures
        match raw {
            Some(s) => match parse_unsigned(s@, u8::MAX as nat) {
                Some(v) => r == v,
                None => r == default,
            },
            None => r == default,
        },
{
    match raw {
        Some(s) => match parse_u8(s) {
            Some(v) => v,
            None => default,
        },
        None => default,
    }
}

/// The period of the retention sweep: the configured interval, but never
/// shorter than 30 seconds.
pub fn retention_sweep_period_secs(interval_secs: u64) -> (r: u64)
    ensures
        r == if interval_secs >= MIN_RETENTION_SWEEP_INTERVAL_SECS {
            interval_secs
        } else {
            MIN_RETENTION_SWEEP_INTERVAL_SECS
        },
        r >= MIN_RETENTION_SWEEP_INTERVAL_SECS,
        r >= 30 && (interval_secs >= 30 ==> r == interval_secs) && (interval_secs < 30 ==> r == 30),
{
    if interval_secs >= MIN_RETENTION_SWEEP_INTERVAL_SECS {
        interval_secs
    } else {
        MIN_RETENTION_SWEEP_INTERVAL_SECS
    }
}

/// Whether camera keep-alive probes run: only for a positive interval.
pub fn keepalive_enabled(interval_secs: u64) -> (r: bool)
    ensures
        r == (interval_secs > 0),
{
    interval_secs > 0
}

} // verus!
