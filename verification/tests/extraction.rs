use shion_history::browser::{extract_chromium, extract_firefox, ChromiumRow, FirefoxRow};

fn chromium_row(title: &str, url: &str, visit_native: i64) -> ChromiumRow {
    ChromiumRow { title: title.to_string(), url: url.to_string(), visit_native }
}

#[test]
fn test_chromium_bounds_are_exclusive() {
    // Native values of the window bounds 2000 ms and 3000 ms.
    let at_start: i64 = 11644473602000000;
    let inside: i64 = 11644473602500000;
    let at_end: i64 = 11644473603000000;
    let rows = vec![
        chromium_row("a", "https://a.example", at_start),
        chromium_row("b", "https://b.example", inside),
        chromium_row("c", "https://c.example", at_end),
    ];
    let records = extract_chromium(&rows, 2000, 3000);
    assert_eq!(records.len(), 1);
    assert_eq!(records[0].title, "b");
    assert_eq!(records[0].url, "https://b.example");
    assert_eq!(records[0].last_visited, 2000);
}

#[test]
fn test_chromium_negative_visit_time_is_excluded() {
    let rows = vec![chromium_row("a", "https://a.example", -1)];
    let records = extract_chromium(&rows, 0, 3000);
    assert_eq!(records.len(), 0);
}

#[test]
fn test_chromium_keeps_row_order() {
    let rows = vec![
        chromium_row("late", "https://late.example", 11644473602800000),
        chromium_row("early", "https://early.example", 11644473602100000),
    ];
    let records = extract_chromium(&rows, 2000, 3000);
    assert_eq!(records.len(), 2);
    assert_eq!(records[0].title, "late");
    assert_eq!(records[1].title, "early");
}

#[test]
fn test_firefox_bounds_are_exclusive() {
    let rows = vec![
        FirefoxRow {
            title: Some("a".to_string()),
            url: "https://a.example".to_string(),
            visit_native: 2000000,
        },
        FirefoxRow {
            title: Some("b".to_string()),
            url: "https://b.example".to_string(),
            visit_native: 2500000,
        },
        FirefoxRow {
            title: Some("c".to_string()),
            url: "https://c.example".to_string(),
            visit_native: 3000000,
        },
    ];
    let records = extract_firefox(&rows, 2000, 3000);
    assert_eq!(records.len(), 1);
    assert_eq!(records[0].title, "b");
    assert_eq!(records[0].last_visited, 2500);
}

#[test]
fn test_firefox_missing_title_becomes_empty() {
    let rows = vec![FirefoxRow {
        title: None,
        url: "https://a.example".to_string(),
        visit_native: 2500000,
    }];
    let records = extract_firefox(&rows, 2000, 3000);
    assert_eq!(records.len(), 1);
    assert_eq!(records[0].title, "");
    assert_eq!(records[0].url, "https://a.example");
}
