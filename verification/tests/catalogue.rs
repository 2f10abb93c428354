use shion_history::config::{has_browser, Browser, InnerConfig};
use shion_history::database::Database;
use shion_history::history::{get_database_list, get_platform, Platform};

#[test]
fn test_platform_names() {
    assert_eq!(get_platform("windows"), Platform::Windows);
    assert_eq!(get_platform("macos"), Platform::Mac);
    assert_eq!(get_platform("linux"), Platform::Linux);
    assert_eq!(get_platform("freebsd"), Platform::Unknown);
    assert_eq!(get_platform(""), Platform::Unknown);
}

#[test]
fn test_windows_database_list() {
    let list = get_database_list(Platform::Windows);
    assert_eq!(list.len(), 4);
    assert_eq!(list[0].name, "Google Chrome");
    assert_eq!(list[0].pattern, "AppData/Local/Google/Chrome/User Data/*/History");
    assert_eq!(list[1].name, "Microsoft Edge");
    assert_eq!(list[2].name, "Firefox");
    assert_eq!(list[3].name, "Arc");
}

#[test]
fn test_other_platform_database_list_is_empty() {
    assert_eq!(get_database_list(Platform::Mac).len(), 0);
    assert_eq!(get_database_list(Platform::Linux).len(), 0);
    assert_eq!(get_database_list(Platform::Unknown).len(), 0);
}

#[test]
fn test_fresh_config_from_database_list() {
    let list = get_database_list(Platform::Windows);
    let config = InnerConfig::from_database_list(&list);
    assert_eq!(config.browsers.len(), 4);
    for (browser, entry) in config.browsers.iter().zip(list.iter()) {
        assert_eq!(browser.name, entry.name);
        assert_eq!(browser.last_sync, 0);
    }
}

#[test]
fn test_merge_appends_missing_browsers_only() {
    let list = get_database_list(Platform::Windows);
    let mut config = InnerConfig {
        browsers: vec![Browser { name: "Google Chrome".to_string(), last_sync: 123 }],
    };
    config.merge_database_list(&list);
    assert_eq!(config.browsers.len(), 4);
    assert_eq!(config.browsers[0].name, "Google Chrome");
    assert_eq!(config.browsers[0].last_sync, 123);
    assert_eq!(config.browsers[1].name, "Microsoft Edge");
    assert_eq!(config.browsers[1].last_sync, 0);
    assert_eq!(config.browsers[2].name, "Firefox");
    assert_eq!(config.browsers[3].name, "Arc");
}

#[test]
fn test_merge_keeps_unknown_entries() {
    let list = get_database_list(Platform::Windows);
    let mut config = InnerConfig {
        browsers: vec![Browser { name: "Netscape".to_string(), last_sync: 7 }],
    };
    config.merge_database_list(&list);
    assert_eq!(config.browsers.len(), 5);
    assert_eq!(config.browsers[0].name, "Netscape");
    assert_eq!(config.browsers[0].last_sync, 7);
}

#[test]
fn test_merge_is_idempotent() {
    let list = get_database_list(Platform::Windows);
    let mut config = InnerConfig { browsers: vec![] };
    config.merge_database_list(&list);
    assert_eq!(config.browsers.len(), 4);
    config.merge_database_list(&list);
    assert_eq!(config.browsers.len(), 4);
}

#[test]
fn test_has_browser_matches_exact_name() {
    let browsers = vec![Browser { name: "Firefox".to_string(), last_sync: 0 }];
    assert!(has_browser(&browsers, "Firefox"));
    assert!(!has_browser(&browsers, "firefox"));
    assert!(!has_browser(&browsers, "Arc"));
}

#[test]
fn test_database_scratch_dir_is_under_base() {
    let database = Database::new("plugins/history");
    assert_eq!(database.temp_dir, "plugins/history/temp");
}
