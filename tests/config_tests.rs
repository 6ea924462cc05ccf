use sron::config::{check_config, parse_config, Config, ConfigError, Setting};

#[test]
fn reads_human_readable_durations() {
    let c = parse_config("30ms", "5m", "60s").unwrap();
    assert_eq!(
        c,
        Config { period: 30_000_000, duration: 300_000_000_000, timeout: Some(60_000_000_000) }
    );
}

#[test]
fn refuses_malformed_text() {
    assert_eq!(parse_config("", "5m", "60s"), Err(ConfigError::Malformed(Setting::Period)));
    assert_eq!(parse_config("1s", "soon", "60s"), Err(ConfigError::Malformed(Setting::Duration)));
    assert_eq!(parse_config("1s", "5m", "xyz"), Err(ConfigError::Malformed(Setting::Timeout)));
}

#[test]
fn refuses_zero_period() {
    assert_eq!(parse_config("0ms", "5m", "60s"), Err(ConfigError::ZeroPeriod));
    assert_eq!(check_config(Some(0), Some(1), Some(1)), Err(ConfigError::ZeroPeriod));
}

#[test]
fn period_checked_before_duration() {
    assert_eq!(check_config(None, None, None), Err(ConfigError::Malformed(Setting::Period)));
    assert_eq!(check_config(Some(1), None, None), Err(ConfigError::Malformed(Setting::Duration)));
    assert_eq!(check_config(Some(1), Some(0), None), Err(ConfigError::Malformed(Setting::Timeout)));
}

#[test]
fn sizes_beyond_sixty_four_bits() {
    let big = u64::MAX as u128 + 1;
    assert_eq!(check_config(Some(big), Some(1), Some(1)), Err(ConfigError::TooLong(Setting::Period)));
    assert_eq!(check_config(Some(1), Some(big), Some(1)), Err(ConfigError::TooLong(Setting::Duration)));
    assert_eq!(
        check_config(Some(1), Some(u64::MAX as u128), Some(big)),
        Ok(Config { period: 1, duration: u64::MAX, timeout: None })
    );
    assert_eq!(
        check_config(Some(2), Some(0), Some(u64::MAX as u128)),
        Ok(Config { period: 2, duration: 0, timeout: Some(u64::MAX) })
    );
}
