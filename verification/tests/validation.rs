use shion_history::browser::{chromium_schema_valid, firefox_schema_valid, CatalogEntry};

fn entry(kind: &str, name: &str) -> CatalogEntry {
    CatalogEntry { kind: kind.to_string(), name: name.to_string() }
}

#[test]
fn test_chromium_valid_with_single_urls_table() {
    let catalog = vec![entry("table", "urls"), entry("index", "urls_index")];
    assert!(chromium_schema_valid(&catalog));
}

#[test]
fn test_chromium_invalid_with_no_urls_table() {
    let catalog = vec![entry("table", "other"), entry("index", "urls")];
    assert!(!chromium_schema_valid(&catalog));
}

#[test]
fn test_chromium_invalid_with_empty_catalog() {
    let catalog: Vec<CatalogEntry> = vec![];
    assert!(!chromium_schema_valid(&catalog));
}

#[test]
fn test_chromium_invalid_with_duplicate_urls_tables() {
    let catalog = vec![entry("table", "urls"), entry("table", "urls")];
    assert!(!chromium_schema_valid(&catalog));
}

#[test]
fn test_firefox_valid_with_both_tables() {
    let catalog = vec![entry("table", "moz_places"), entry("table", "moz_historyvisits")];
    assert!(firefox_schema_valid(&catalog));
}

#[test]
fn test_firefox_invalid_with_only_historyvisits() {
    let catalog = vec![entry("table", "moz_historyvisits")];
    assert!(!firefox_schema_valid(&catalog));
}

#[test]
fn test_firefox_invalid_with_only_places() {
    let catalog = vec![entry("table", "moz_places")];
    assert!(!firefox_schema_valid(&catalog));
}

#[test]
fn test_firefox_kind_filter_reaches_only_places() {
    // The kind filter binds only to the first name comparison, so a
    // non-table object named moz_historyvisits is still counted ...
    let catalog = vec![entry("table", "moz_places"), entry("index", "moz_historyvisits")];
    assert!(firefox_schema_valid(&catalog));
    // ... while a non-table object named moz_places is not.
    let catalog = vec![entry("view", "moz_places"), entry("table", "moz_historyvisits")];
    assert!(!firefox_schema_valid(&catalog));
}

#[test]
fn test_firefox_invalid_with_three_matches() {
    let catalog = vec![
        entry("table", "moz_places"),
        entry("table", "moz_historyvisits"),
        entry("index", "moz_historyvisits"),
    ];
    assert!(!firefox_schema_valid(&catalog));
}
