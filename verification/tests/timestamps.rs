use shion_history::timestamp::{
    chromium_ms_to_native, chromium_native_to_ms, firefox_ms_to_native, firefox_native_to_ms,
    window_in_range,
};

#[test]
fn test_chromium_native_of_zero() {
    assert_eq!(chromium_ms_to_native(0), 11644473600000000);
    assert_eq!(chromium_native_to_ms(11644473600000000), 0);
}

#[test]
fn test_chromium_round_trip_zero() {
    assert_eq!(chromium_native_to_ms(chromium_ms_to_native(0)), 0);
}

#[test]
fn test_chromium_round_trip_large() {
    let ms: u64 = 1713283200000;
    assert_eq!(chromium_ms_to_native(ms), 13357756800000000);
    assert_eq!(chromium_native_to_ms(chromium_ms_to_native(ms)), ms);
}

#[test]
fn test_chromium_round_trip_truncates_to_seconds() {
    let ms: u64 = 1713283200123;
    assert_eq!(chromium_native_to_ms(chromium_ms_to_native(ms)), 1713283200000);
}

#[test]
fn test_firefox_round_trip_zero() {
    assert_eq!(firefox_native_to_ms(firefox_ms_to_native(0)), 0);
}

#[test]
fn test_firefox_round_trip_large() {
    let ms: u64 = 1713283200000;
    assert_eq!(firefox_ms_to_native(ms), 1713283200000000);
    assert_eq!(firefox_native_to_ms(firefox_ms_to_native(ms)), ms);
}

#[test]
fn test_firefox_round_trip_keeps_milliseconds() {
    let ms: u64 = 1713283200123;
    assert_eq!(firefox_native_to_ms(firefox_ms_to_native(ms)), ms);
}

#[test]
fn test_window_range_boundary() {
    assert!(window_in_range(0));
    assert!(window_in_range(1713283200000));
    assert!(window_in_range(18435099600109999));
    assert!(!window_in_range(18435099600110000));
    assert!(!window_in_range(u64::MAX));
}
