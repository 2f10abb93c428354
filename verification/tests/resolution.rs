use shion_history::browser::{get_browser, BrowserKind};

#[test]
fn test_chromium_names_resolve_to_chromium() {
    assert_eq!(get_browser("Google Chrome"), BrowserKind::Chromium);
    assert_eq!(get_browser("Microsoft Edge"), BrowserKind::Chromium);
    assert_eq!(get_browser("Arc"), BrowserKind::Chromium);
}

#[test]
fn test_firefox_name_resolves_to_firefox() {
    assert_eq!(get_browser("Firefox"), BrowserKind::Firefox);
}

#[test]
fn test_other_names_resolve_to_fallback() {
    assert_eq!(get_browser("Safari"), BrowserKind::Fallback);
    assert_eq!(get_browser(""), BrowserKind::Fallback);
    assert_eq!(get_browser("google chrome"), BrowserKind::Fallback);
    assert_eq!(get_browser("Firefox "), BrowserKind::Fallback);
}
