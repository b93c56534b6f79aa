//! Parameters of one sampling run and the errors that end a run.
use vstd::prelude::*;

verus! {

/// Microseconds in one second.
pub const MICROS_PER_SECOND: i64 = 1_000_000;

/// Why a run was refused before any acquisition started.
#[derive(Clone, Copy, Debug, PartialEq, Eq, Structural)]
pub enum ConfigError {
    /// The interval between ticks is zero or negative.
    NonPositiveInterval,
    /// The run duration is negative.
    NegativeDuration,
}

/// A failure of the analog-to-digital converter or of its bus.
#[derive(Clone, Copy, Debug, PartialEq, Eq, Structural)]
pub enum DeviceError {
    /// The bus could not be opened.
    Open,
    /// A conversion failed: the bus transaction was refused, timed out or
    /// answered with malformed data.
    Conversion,
    /// A channel other than the two that this system reads was asked for.
    InvalidChannel,
}

/// Why a run produced no series.
#[derive(Clone, Copy, Debug, PartialEq, Eq, Structural)]
pub enum RunError {
    /// The configuration was rejected; nothing was read.
    InvalidConfig(ConfigError),
    /// The device failed; every sample of the run was discarded.
    Device(DeviceError),
}

/// The scalar parameters of one run, fixed before it starts.
///
/// Times are whole numbers: the duration in seconds, the interval between two
/// ticks in microseconds. The calibration multiplier is given in millionths
/// (`1_000_000` stands for a multiplier of one).
#[derive(Clone, Copy, Debug, PartialEq, Eq, Structural)]
pub struct RunConfig {
    pub duration_seconds: i16,
    pub interval_micros: i64,
    pub multiplier_millionths: i64,
}

/// The error that a configuration with these parameters is refused with, if any.
pub open spec fn config_error(duration_seconds: int, interval_micros: int) -> Option<ConfigError> {
    if interval_micros <= 0 {
        Some(ConfigError::NonPositiveInterval)
    } else if duration_seconds < 0 {
        Some(ConfigError::NegativeDuration)
    } else {
        None
    }
}

/// Number of ticks of a run: one at each time `k * interval` that does not
/// pass the duration, `t = 0` included, i.e. `floor(duration / interval) + 1`.
pub open spec fn tick_count(duration_seconds: int, interval_micros: int) -> int {
    (duration_seconds * MICROS_PER_SECOND) / interval_micros + 1
}

impl RunConfig {
    pub open spec fn error_spec(&self) -> Option<ConfigError> {
        config_error(self.duration_seconds as int, self.interval_micros as int)
    }

    pub open spec fn ticks_spec(&self) -> int {
        tick_count(self.duration_seconds as int, self.interval_micros as int)
    }

    /// The number of samples that a run with this configuration yields, or the
    /// reason it is refused.
    pub fn sample_count(&self) -> (r: Result<u64, ConfigError>)
        ensures
            self.error_spec() is Some ==> r == Err::<u64, ConfigError>(self.error_spec()->0),
            self.error_spec() is None ==> r is Ok && r->Ok_0 as int == self.ticks_spec(),
    {
        if self.interval_micros <= 0 {
            return Err(ConfigError::NonPositiveInterval);
        }
        if self.duration_seconds < 0 {
            return Err(ConfigError::NegativeDuration);
        }
        let micros: i64 = self.duration_seconds as i64 * MICROS_PER_SECOND;
        let n: i64 = micros / self.interval_micros;
        assert(0 <= n <= micros) by (nonlinear_arith)
            requires
                n == micros / self.interval_micros,
                micros >= 0,
                self.interval_micros > 0,
        ;
        Ok(n as u64 + 1)
    }
}

/// The tick count of a run with a non-negative duration and a positive
/// interval is at least one, and it is `floor(duration / interval) + 1`: the
/// last tick time `(count - 1) * interval` lies within the duration, and the
/// next one, `count * interval`, lies past it.
pub proof fn lemma_tick_count_covers_duration(duration_seconds: int, interval_micros: int)
    requires
        duration_seconds >= 0,
        interval_micros > 0,
    ensures
        tick_count(duration_seconds, interval_micros) >= 1,
        (tick_count(duration_seconds, interval_micros) - 1) * interval_micros
            <= duration_seconds * MICROS_PER_SECOND,
        tick_count(duration_seconds, interval_micros) * interval_micros
            > duration_seconds * MICROS_PER_SECOND,
{
    let d = duration_seconds * MICROS_PER_SECOND;
    let q = d / interval_micros;
    assert(d >= 0) by (nonlinear_arith)
        requires
            duration_seconds >= 0,
            d == duration_seconds * MICROS_PER_SECOND,
    ;
    assert(q >= 0 && q * interval_micros <= d && (q + 1) * interval_micros > d) by (nonlinear_arith)
        requires
            q == d / interval_micros,
            d >= 0,
            interval_micros > 0,
    ;
}

} // verus!
