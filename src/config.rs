use vstd::prelude::*;

verus! {

/// The settings of one run, in nanoseconds.
#[derive(Clone, Copy, Debug, PartialEq, Eq, Structural)]
pub struct Config {
    /// Time between two admissions; never zero.
    pub period: u64,
    /// Length of the run: no request is admitted at or after this offset.
    pub duration: u64,
    /// Longest wait for an answer; `None` waits without bound.
    pub timeout: Option<u64>,
}

/// Which setting a configuration error is about.
#[derive(Clone, Copy, Debug, PartialEq, Eq, Structural)]
pub enum Setting {
    Period,
    Duration,
    Timeout,
}

/// Why a run cannot start.
#[derive(Clone, Copy, Debug, PartialEq, Eq, Structural)]
pub enum ConfigError {
    /// The text is not a duration.
    Malformed(Setting),
    /// A period of zero would admit requests without bound.
    ZeroPeriod,
    /// The duration does not fit in 64 bits of nanoseconds.
    TooLong(Setting),
}

/// Nanoseconds in the duration that a text denotes, if it denotes one.
pub uninterp spec fn duration_text_nanos(s: Seq<char>) -> Option<u128>;

/// Relies on duration_str::parse: reads a human-readable duration ("30ms",
/// "5m", "1h 2s"); an empty text is refused.
#[verifier::external_body]
fn parse_duration_text(s: &str) -> (r: Option<u128>)
    ensures
        r == duration_text_nanos(s@),
        s@.len() == 0 ==> r is None,
{
    duration_str::parse(s).ok().map(|d| d.as_nanos())
}

/// The configuration that three parsed durations give, checked in the order
/// period, duration, timeout.
pub open spec fn config_of(period: Option<u128>, duration: Option<u128>, timeout: Option<u128>) -> Result<
    Config,
    ConfigError,
> {
    match (period, duration, timeout) {
        (None, _, _) => Err(ConfigError::Malformed(Setting::Period)),
        (Some(p), _, _) if p == 0 => Err(ConfigError::ZeroPeriod),
        (Some(p), _, _) if p > u64::MAX => Err(ConfigError::TooLong(Setting::Period)),
        (_, None, _) => Err(ConfigError::Malformed(Setting::Duration)),
        (_, Some(d), _) if d > u64::MAX => Err(ConfigError::TooLong(Setting::Duration)),
        (_, _, None) => Err(ConfigError::Malformed(Setting::Timeout)),
        (Some(p), Some(d), Some(t)) => Ok(
            Config {
                period: p as u64,
                duration: d as u64,
                timeout: if t > u64::MAX {
                    None
                } else {
                    Some(t as u64)
                },
            },
        ),
    }
}

/// Checks three durations, in nanoseconds, given as parsed (`None`: the text
/// was no duration). A timeout beyond 64 bits of nanoseconds is unbounded.
pub fn check_config(period: Option<u128>, duration: Option<u128>, timeout: Option<u128>) -> (r:
    Result<Config, ConfigError>)
    ensures
        r == config_of(period, duration, timeout),
{
    let p = match period {
        None => return Err(ConfigError::Malformed(Setting::Period)),
        Some(p) => p,
    };
    if p == 0 {
        return Err(ConfigError::ZeroPeriod);
    }
    if p > u64::MAX as u128 {
        return Err(ConfigError::TooLong(Setting::Period));
    }
    let d = match duration {
        None => return Err(ConfigError::Malformed(Setting::Duration)),
        Some(d) => d,
    };
    if d > u64::MAX as u128 {
        return Err(ConfigError::TooLong(Setting::Duration));
    }
    let t = match timeout {
        None => return Err(ConfigError::Malformed(Setting::Timeout)),
        Some(t) => t,
    };
    let timeout = if t > u64::MAX as u128 {
        None
    } else {
        Some(t as u64)
    };
    Ok(Config { period: p as u64, duration: d as u64, timeout })
}

/// Reads the period, run length and timeout of a run from human-readable
/// durations, refusing a malformed text, a zero period, and a period or run
/// length beyond 64 bits of nanoseconds.
pub fn parse_config(period: &str, duration: &str, timeout: &str) -> (r: Result<
    Config,
    ConfigError,
>)
    ensures
        r == config_of(
            duration_text_nanos(period@),
            duration_text_nanos(duration@),
            duration_text_nanos(timeout@),
        ),
        period@.len() == 0 ==> r == Err::<Config, ConfigError>(
            ConfigError::Malformed(Setting::Period),
        ),
        r matches Ok(c) ==> c.period > 0,
{
    let p = parse_duration_text(period);
    let d = parse_duration_text(duration);
    let t = parse_duration_text(timeout);
    check_config(p, d, t)
}

} // verus!
