use rudis::meta::KeyMetadata;

fn meta_with_ttl(ttl: Option<u64>) -> KeyMetadata {
    KeyMetadata::new(None, ttl, None)
}

fn meta_with_size(size: Option<u64>) -> KeyMetadata {
    KeyMetadata::new(None, None, size)
}

#[test]
fn ttl_scenario_short_missing_hours() {
    // Endpoint with keys {"a": ttl=10, "b": ttl=none, "c": ttl=7200}.
    assert_eq!(meta_with_ttl(Some(10)).ttl_as_human_delta(), "10s");
    assert_eq!(meta_with_ttl(None).ttl_as_human_delta(), "N/A");
    assert_eq!(meta_with_ttl(Some(7200)).ttl_as_human_delta(), "2h");
}

#[test]
fn ttl_thresholds() {
    assert_eq!(meta_with_ttl(Some(0)).ttl_as_human_delta(), "0s");
    assert_eq!(meta_with_ttl(Some(50)).ttl_as_human_delta(), "50s");
    assert_eq!(meta_with_ttl(Some(51)).ttl_as_human_delta(), "1m");
    assert_eq!(meta_with_ttl(Some(3000)).ttl_as_human_delta(), "60m");
    assert_eq!(meta_with_ttl(Some(3001)).ttl_as_human_delta(), "1h");
    assert_eq!(meta_with_ttl(Some(23 * 60 * 60 + 1)).ttl_as_human_delta(), "1d");
    assert_eq!(meta_with_ttl(Some(6 * 24 * 60 * 60 + 1)).ttl_as_human_delta(), "1w");
    assert_eq!(meta_with_ttl(Some(4 * 7 * 24 * 60 * 60 + 1)).ttl_as_human_delta(), "1M");
    assert_eq!(meta_with_ttl(Some(12 * 30 * 24 * 60 * 60 + 1)).ttl_as_human_delta(), "1y");
    assert_eq!(meta_with_ttl(Some(3 * 12 * 30 * 24 * 60 * 60 + 5)).ttl_as_human_delta(), "3y");
}

#[test]
fn size_thresholds() {
    assert_eq!(meta_with_size(None).size_as_human(), "-");
    assert_eq!(meta_with_size(Some(0)).size_as_human(), "0B");
    assert_eq!(meta_with_size(Some(1023)).size_as_human(), "1023B");
    assert_eq!(meta_with_size(Some(1024)).size_as_human(), "1KB");
    assert_eq!(meta_with_size(Some(3 * 1024 + 512)).size_as_human(), "3KB");
    assert_eq!(meta_with_size(Some(2 * 1024 * 1024)).size_as_human(), "2MB");
    assert_eq!(meta_with_size(Some(5 * 1024 * 1024 * 1024)).size_as_human(), "5GB");
}

#[test]
fn value_type_tag() {
    let m = KeyMetadata::new(Some("hash".to_string()), None, None);
    assert_eq!(m.value_type(), "hash");
    assert_eq!(meta_with_ttl(None).value_type(), "-");
}

#[test]
fn decimal_rendering() {
    assert_eq!(rudis::meta::u64_to_decimal(0), "0");
    assert_eq!(rudis::meta::u64_to_decimal(7), "7");
    assert_eq!(rudis::meta::u64_to_decimal(1234567890), "1234567890");
    assert_eq!(rudis::meta::u64_to_decimal(u64::MAX), "18446744073709551615");
}
