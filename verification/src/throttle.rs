//! Rate limiting for progress logging.
//!
//! A transfer emits progress far faster than anyone wants it logged, so each
//! job carries a throttle: at most one log line per interval.  The decision
//! is a pure function of the clock reading; the clock itself is read through
//! the monotonic timer and promises nothing about its values.

use vstd::prelude::*;

verus! {

/// Logging configuration of a daemon run.
#[derive(Debug, Clone)]
pub struct LogConfig {
    /// Emit logs as JSON for machine parsing.
    pub json: bool,
    /// Default to debug-level verbosity.
    pub verbose: bool,
}

impl Default for LogConfig {
    /// Pretty console output at normal verbosity.
    fn default() -> (r: LogConfig)
        ensures
            !r.json,
            !r.verbose,
    {
        LogConfig { json: false, verbose: false }
    }
}

/// Sentinel meaning "never logged yet".
pub const NEVER_LOGGED: u64 = u64::MAX;

#[verifier::external_type_specification]
#[verifier::external_body]
pub struct ExInstant(std::time::Instant);

/// Relies on std::time::Instant::now: an opaque reading of the monotonic
/// clock, promised nothing about.
pub assume_specification[ std::time::Instant::now ]() -> std::time::Instant;

/// Relies on std::time::Instant::elapsed: the time since the reading, as a
/// duration; its value depends on the clock.
pub assume_specification[ std::time::Instant::elapsed ](
    start: &std::time::Instant,
) -> core::time::Duration;

/// Relies on core::time::Duration::as_millis: the duration in whole
/// milliseconds; its value depends on the duration alone but the duration
/// came from the clock.
pub assume_specification[ core::time::Duration::as_millis ](
    d: &core::time::Duration,
) -> u128;

/// A rate limiter: `should_log` answers yes at most once per interval.
pub struct LogThrottle {
    interval_ms: u64,
    /// Milliseconds since `start` at the last accepted log, or
    /// `NEVER_LOGGED`.
    last_log_ms: u64,
    start: std::time::Instant,
}

impl LogThrottle {
    /// The configured minimum interval between accepted logs.
    pub closed spec fn interval(self) -> u64 {
        self.interval_ms
    }

    /// The clock value of the last accepted log, or `NEVER_LOGGED`.
    pub closed spec fn last_log(self) -> u64 {
        self.last_log_ms
    }

    /// A throttle that accepts its first log immediately.
    pub fn new(interval_ms: u64) -> (r: LogThrottle)
        ensures
            r.interval() == interval_ms,
            r.last_log() == NEVER_LOGGED,
    {
        LogThrottle {
            interval_ms,
            last_log_ms: NEVER_LOGGED,
            start: std::time::Instant::now(),
        }
    }

    /// Whether a log at clock value `now_ms` is accepted: the first log
    /// always is, a later one only after the interval passed.  An accepted
    /// log moves the mark; a rejected one changes nothing.
    pub fn should_log_at(&mut self, now_ms: u64) -> (accept: bool)
        ensures
            final(self).interval() == old(self).interval(),
            accept <==> (old(self).last_log() == NEVER_LOGGED || (if now_ms
                >= old(self).last_log() {
                now_ms - old(self).last_log()
            } else {
                0int
            }) >= old(self).interval()),
            accept ==> final(self).last_log() == now_ms,
            !accept ==> final(self).last_log() == old(self).last_log(),
    {
        let last = self.last_log_ms;
        let delta = if now_ms >= last {
            now_ms - last
        } else {
            0
        };
        let accept = last == NEVER_LOGGED || delta >= self.interval_ms;
        if accept {
            self.last_log_ms = now_ms;
        }
        accept
    }

    /// One throttle step against the clock reading `now`: the first log is
    /// always accepted, a later one only once the interval passed since the
    /// last accepted log; acceptance moves the mark to `now`, rejection
    /// changes nothing.
    pub open spec fn spec_step(before: LogThrottle, after: LogThrottle, accept: bool, now: u64) -> bool {
        &&& after.interval() == before.interval()
        &&& (accept <==> (before.last_log() == NEVER_LOGGED || (if now >= before.last_log() {
            now - before.last_log()
        } else {
            0int
        }) >= before.interval()))
        &&& (accept ==> after.last_log() == now)
        &&& (!accept ==> after.last_log() == before.last_log())
    }

    /// Reads the clock and decides as `should_log_at`.  Which reading the
    /// clock returns is unknown, but the call behaves as `should_log_at(now)`
    /// for some reading `now`: in particular a throttle that never logged
    /// accepts, rejection changes nothing, and at most one log per interval
    /// is accepted against the readings actually seen.
    pub fn should_log(&mut self) -> (accept: bool)
        ensures
            final(self).interval() == old(self).interval(),
            exists|now: u64| #[trigger] LogThrottle::spec_step(*old(self), *final(self), accept, now),
            old(self).last_log() == NEVER_LOGGED ==> accept,
            !accept ==> final(self).last_log() == old(self).last_log(),
    {
        let elapsed = self.start.elapsed();
        let wide = elapsed.as_millis();
        let now_ms: u64 = if wide > 0xffff_ffff_ffff_fffe_u128 {
            0xffff_ffff_ffff_fffe_u64
        } else {
            wide as u64
        };
        let accept = self.should_log_at(now_ms);
        proof {
            assert(LogThrottle::spec_step(*old(self), *self, accept, now_ms));
        }
        accept
    }

    /// Resets the throttle: the next log is accepted immediately.
    pub fn reset(&mut self)
        ensures
            final(self).interval() == old(self).interval(),
            final(self).last_log() == NEVER_LOGGED,
    {
        self.last_log_ms = NEVER_LOGGED;
    }
}

} // verus!
