//! Curve construction, configuration, metadata validation and the
//! graduation state machine.

use bonding_curve::config::PlatformConfig;
use bonding_curve::curve::CompletionState;
use bonding_curve::curve::CurveState;
use bonding_curve::errors::CurveError;
use bonding_curve::validate::validate_token_metadata;

fn config(fee_bps: u16, threshold: u64) -> PlatformConfig {
    PlatformConfig::new(fee_bps, 0, u64::MAX, threshold, 1_000, 1_000).unwrap()
}

#[test]
fn new_curve_fields() {
    let c = CurveState::new(1_000, 500, 800, 42).unwrap();
    assert_eq!(c.virtual_token_reserves, 1_000);
    assert_eq!(c.virtual_sol_reserves, 500);
    assert_eq!(c.real_token_reserves, 800);
    assert_eq!(c.real_sol_reserves, 0);
    assert_eq!(c.total_supply, 800);
    assert_eq!(c.completion_state, CompletionState::Active);
    assert_eq!(c.creation_timestamp, 42);
    assert_eq!(c.last_trade_timestamp, 42);
}

#[test]
fn new_curve_rejects_zero_reserves() {
    assert_eq!(CurveState::new(0, 500, 1, 0), Err(CurveError::InvalidReserves));
    assert_eq!(CurveState::new(1_000, 0, 1, 0), Err(CurveError::InvalidReserves));
}

#[test]
fn new_curve_rejects_zero_supply() {
    assert_eq!(CurveState::new(1_000, 500, 0, 0), Err(CurveError::InvalidSupply));
}

#[test]
fn new_curve_rejects_supply_above_virtual_reserve() {
    assert_eq!(CurveState::new(1_000, 500, 1_001, 0), Err(CurveError::InvalidReserves));
}

#[test]
fn config_fields_and_unpaused() {
    let cfg = PlatformConfig::new(250, 10, 1_000, 85_000_000_000, 7, 9).unwrap();
    assert_eq!(cfg.fee_basis_points, 250);
    assert!(!cfg.paused);
    assert_eq!(cfg.min_buy_amount, 10);
    assert_eq!(cfg.max_buy_amount, 1_000);
    assert_eq!(cfg.graduation_threshold, 85_000_000_000);
    assert_eq!(cfg.initial_virtual_token_reserves, 7);
    assert_eq!(cfg.initial_virtual_sol_reserves, 9);
}

#[test]
fn config_rejects_fee_above_ten_percent() {
    assert_eq!(
        PlatformConfig::new(1001, 0, 10, 0, 1, 1),
        Err(CurveError::InvalidFeeRate)
    );
}

#[test]
fn config_rejects_zero_initial_reserves() {
    assert_eq!(PlatformConfig::new(0, 0, 10, 0, 0, 1), Err(CurveError::InvalidReserves));
    assert_eq!(PlatformConfig::new(0, 0, 10, 0, 1, 0), Err(CurveError::InvalidReserves));
}

#[test]
fn config_rejects_crossed_buy_bounds() {
    assert_eq!(
        PlatformConfig::new(0, 11, 10, 0, 1, 1),
        Err(CurveError::InvalidTradeLimits)
    );
}

#[test]
fn config_update_applies_both_fields() {
    let mut cfg = config(100, 0);
    assert_eq!(cfg.update(Some(300), Some(true)), Ok(()));
    assert_eq!(cfg.fee_basis_points, 300);
    assert!(cfg.paused);
}

#[test]
fn config_update_none_is_noop() {
    let mut cfg = config(100, 0);
    let before = cfg;
    assert_eq!(cfg.update(None, None), Ok(()));
    assert_eq!(cfg, before);
}

#[test]
fn config_update_rejects_high_fee_whole() {
    let mut cfg = config(100, 0);
    let before = cfg;
    // The pause flag must not change when the fee update is rejected.
    assert_eq!(cfg.update(Some(1001), Some(true)), Err(CurveError::InvalidFeeRate));
    assert_eq!(cfg, before);
}

#[test]
fn complete_below_threshold_fails() {
    let mut c = CurveState::new(1_000, 1_000, 1_000, 0).unwrap();
    let before = c;
    assert_eq!(c.complete(150), Err(CurveError::GraduationThresholdNotMet));
    assert_eq!(c, before);
}

#[test]
fn complete_at_threshold_graduates() {
    let mut c = CurveState::new(1_000, 1_000, 1_000, 0).unwrap();
    // Zero raised, zero threshold: already at the bar.
    assert_eq!(c.complete(0), Ok(()));
    assert_eq!(c.completion_state, CompletionState::Graduating);
    assert_eq!(c.complete(0), Err(CurveError::TokenAlreadyGraduated));
}

#[test]
fn migrate_only_from_graduating() {
    let mut c = CurveState::new(1_000, 1_000, 1_000, 0).unwrap();
    assert_eq!(c.migrate(), Err(CurveError::GraduationThresholdNotMet));
    assert_eq!(c.complete(0), Ok(()));
    assert_eq!(c.migrate(), Ok(()));
    assert_eq!(c.completion_state, CompletionState::Migrated);
    assert_eq!(c.migrate(), Err(CurveError::TokenAlreadyMigrated));
}

#[test]
fn metadata_accepted() {
    assert_eq!(validate_token_metadata(b"My Token", b"MTK", b"https://example.invalid/meta.json"), Ok(()));
}

#[test]
fn metadata_name_bounds() {
    assert_eq!(validate_token_metadata(b"", b"MTK", b"u"), Err(CurveError::InvalidTokenName));
    let long_name = [b'a'; 33];
    assert_eq!(
        validate_token_metadata(&long_name, b"MTK", b"u"),
        Err(CurveError::InvalidTokenName)
    );
    let max_name = [b'a'; 32];
    assert_eq!(validate_token_metadata(&max_name, b"MTK", b"u"), Ok(()));
}

#[test]
fn metadata_symbol_bounds() {
    assert_eq!(validate_token_metadata(b"n", b"", b"u"), Err(CurveError::InvalidTokenSymbol));
    let long_symbol = [b's'; 11];
    assert_eq!(
        validate_token_metadata(b"n", &long_symbol, b"u"),
        Err(CurveError::InvalidTokenSymbol)
    );
}

#[test]
fn metadata_uri_bounds() {
    assert_eq!(validate_token_metadata(b"n", b"s", b""), Err(CurveError::InvalidTokenUri));
    let long_uri = [b'u'; 201];
    assert_eq!(
        validate_token_metadata(b"n", b"s", &long_uri),
        Err(CurveError::InvalidTokenUri)
    );
    let max_uri = [b'u'; 200];
    assert_eq!(validate_token_metadata(b"n", b"s", &max_uri), Ok(()));
}

#[test]
fn metadata_reports_first_failure() {
    assert_eq!(validate_token_metadata(b"", b"", b""), Err(CurveError::InvalidTokenName));
    assert_eq!(validate_token_metadata(b"n", b"", b""), Err(CurveError::InvalidTokenSymbol));
}

#[test]
fn error_names_are_distinct_for_trade_errors() {
    assert_ne!(CurveError::Overflow.name(), CurveError::Underflow.name());
    assert_eq!(CurveError::SlippageExceeded.name(), "slippage exceeded");
}
