use zkvm_bench::precompiles;
use zkvm_bench::primitives::ADDRESS_ZERO;

#[test]
fn test_precompile_detection() {
    assert!(precompiles::is_precompile(&precompiles::ECRECOVER));
    assert!(precompiles::is_precompile(&precompiles::MODEXP));
    assert!(!precompiles::is_precompile(&ADDRESS_ZERO));
}

#[test]
fn test_precompile_names() {
    assert_eq!(precompiles::name(&precompiles::ECRECOVER), Some("ecrecover"));
    assert_eq!(precompiles::name(&precompiles::SHA256), Some("sha256"));
    assert_eq!(precompiles::name(&ADDRESS_ZERO), None);
}
