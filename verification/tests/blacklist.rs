use pwd_strength::blacklist::parse_blacklist;
use pwd_strength::{
    get_blacklist, get_blacklist_path, init_blacklist, init_blacklist_from_path, is_blacklisted,
    reset_blacklist_for_testing, BlacklistError, BlacklistSource, BlacklistStore,
};

/// The content of a file with one password per line.
fn lines(passwords: &[&str]) -> String {
    let mut content = String::new();
    for password in passwords {
        content.push_str(password);
        content.push('\n');
    }
    content
}

#[test]
fn test_get_blacklist_path_default() {
    let path = get_blacklist_path(None);
    assert_eq!(path, "./assets/blacklist.txt");
}

#[test]
fn test_get_blacklist_path_from_env() {
    let custom_path = "/custom/path/blacklist.txt";
    let path = get_blacklist_path(Some(custom_path.to_string()));
    assert_eq!(path, custom_path);
}

#[test]
fn test_blacklist_path_variable_name() {
    assert_eq!(pwd_strength::blacklist::blacklist_path_variable(), "PWD_BLACKLIST_PATH");
}

#[test]
fn test_init_blacklist_file_not_found() {
    let mut store = BlacklistStore::new();
    let result = init_blacklist(
        &mut store,
        Some("/nonexistent/path/blacklist.txt".to_string()),
        BlacklistSource::Missing,
    );
    assert!(result.is_err());

    match result {
        Err(BlacklistError::FileNotFound(path)) => {
            assert_eq!(path, "/nonexistent/path/blacklist.txt");
        }
        _ => panic!("Expected FileNotFound error"),
    }
    assert!(!store.is_loaded());
}

#[test]
fn test_init_blacklist_empty_file() {
    let mut store = BlacklistStore::new();
    let result = init_blacklist(
        &mut store,
        Some("/tmp/empty.txt".to_string()),
        BlacklistSource::Content(String::new()),
    );
    assert!(matches!(result, Err(BlacklistError::EmptyFile)));
    assert!(!store.is_loaded());
}

#[test]
fn test_init_blacklist_success() {
    let mut store = BlacklistStore::new();
    let content = lines(&["password123", "qwerty"]);
    let result = init_blacklist(
        &mut store,
        Some("/tmp/list.txt".to_string()),
        BlacklistSource::Content(content),
    );
    assert!(result.is_ok());

    let count = result.unwrap();
    assert_eq!(count, 2);
}

#[test]
fn test_is_blacklisted_true() {
    let mut store = BlacklistStore::new();
    let _ = init_blacklist(
        &mut store,
        None,
        BlacklistSource::Content(lines(&["testpassword"])),
    );

    assert!(is_blacklisted(&store, "testpassword"));
    assert!(is_blacklisted(&store, "TESTPASSWORD")); // case insensitive
}

#[test]
fn test_is_blacklisted_false() {
    let mut store = BlacklistStore::new();
    let _ = init_blacklist(&mut store, None, BlacklistSource::Content(lines(&["common123"])));

    assert!(!is_blacklisted(&store, "veryuncommonpassword987"));
}

#[test]
fn test_is_blacklisted_without_blacklist() {
    let store = BlacklistStore::new();
    assert!(!is_blacklisted(&store, "password"));
    assert!(!is_blacklisted(&store, ""));
    assert!(get_blacklist(&store).is_none());
}

#[test]
fn test_init_blacklist_read_error() {
    let mut store = BlacklistStore::new();
    let cause = std::io::Error::new(std::io::ErrorKind::PermissionDenied, "denied");
    let result =
        init_blacklist_from_path(&mut store, "/etc/list.txt", BlacklistSource::Unreadable(cause));
    match result {
        Err(BlacklistError::ReadError(cause)) => {
            assert_eq!(cause.kind(), std::io::ErrorKind::PermissionDenied);
        }
        _ => panic!("Expected ReadError error"),
    }
    assert!(!store.is_loaded());
}

#[test]
fn test_init_blacklist_whitespace_only_is_empty() {
    let mut store = BlacklistStore::new();
    let result = init_blacklist_from_path(
        &mut store,
        "list.txt",
        BlacklistSource::Content(" \n\t\r\n \u{a0}\n".to_string()),
    );
    assert!(matches!(result, Err(BlacklistError::EmptyFile)));
    assert!(get_blacklist(&store).is_none());
}

#[test]
fn test_init_blacklist_is_idempotent() {
    let mut store = BlacklistStore::new();
    let content = lines(&["password", "123456", "qwerty", "admin"]);
    let first = init_blacklist_from_path(&mut store, "list.txt", BlacklistSource::Content(content));
    assert_eq!(first.unwrap(), 4);

    // The file is gone: the store is loaded, so nothing is read.
    let second = init_blacklist_from_path(&mut store, "list.txt", BlacklistSource::Missing);
    assert_eq!(second.unwrap(), 4);

    // Another content does not replace the loaded one.
    let third = init_blacklist_from_path(
        &mut store,
        "other.txt",
        BlacklistSource::Content(lines(&["letmein"])),
    );
    assert_eq!(third.unwrap(), 4);
    assert!(is_blacklisted(&store, "admin"));
    assert!(!is_blacklisted(&store, "letmein"));
}

#[test]
fn test_init_blacklist_after_failure_can_succeed() {
    let mut store = BlacklistStore::new();
    let first = init_blacklist_from_path(&mut store, "list.txt", BlacklistSource::Missing);
    assert!(first.is_err());
    let second = init_blacklist_from_path(
        &mut store,
        "list.txt",
        BlacklistSource::Content("letmein".to_string()),
    );
    assert_eq!(second.unwrap(), 1);
    assert!(store.is_loaded());
}

#[test]
fn test_parse_trims_lowers_and_drops_blank_lines() {
    let entries = parse_blacklist("  Password  \r\n\n\t\nQWERTY\n   \nadmin");
    assert_eq!(entries.len(), 3);
    assert!(entries.contains("password"));
    assert!(entries.contains("qwerty"));
    assert!(entries.contains("admin"));
    assert!(!entries.contains("Password"));
    assert!(!entries.contains("  password  "));
    assert!(!entries.contains(""));
}

#[test]
fn test_parse_collapses_duplicates() {
    let entries = parse_blacklist("Secret\nsecret\nSECRET \n secret\nother\n");
    assert_eq!(entries.len(), 2);
    assert_eq!(entries.words(), &vec!["secret".to_string(), "other".to_string()]);
    assert!(entries.contains("secret"));
    assert!(entries.contains("other"));
}

#[test]
fn test_parse_keeps_inner_whitespace() {
    let entries = parse_blacklist("  correct horse \n");
    assert_eq!(entries.len(), 1);
    assert!(entries.contains("correct horse"));
}

#[test]
fn test_parse_lowers_beyond_ascii() {
    let entries = parse_blacklist("ÄRGER\nСЕКРЕТ\n");
    assert_eq!(entries.len(), 2);
    assert!(entries.contains("ärger"));
    assert!(entries.contains("секрет"));
}

#[test]
fn test_parse_empty_content() {
    let entries = parse_blacklist("");
    assert_eq!(entries.len(), 0);
    assert!(entries.words().is_empty());
}

#[test]
fn test_is_blacklisted_lowers_beyond_ascii() {
    let mut store = BlacklistStore::new();
    let _ = init_blacklist_from_path(
        &mut store,
        "list.txt",
        BlacklistSource::Content("straße\n".to_string()),
    );
    assert!(is_blacklisted(&store, "STRAßE"));
    assert!(!is_blacklisted(&store, "strasse"));
}

#[test]
fn test_get_blacklist_after_init() {
    let mut store = BlacklistStore::new();
    let _ = init_blacklist_from_path(
        &mut store,
        "list.txt",
        BlacklistSource::Content(lines(&["one", "two", "three"])),
    );
    let entries = get_blacklist(&store).unwrap();
    assert_eq!(entries.len(), 3);
    assert!(entries.contains("two"));
    assert!(!entries.contains("TWO"));
    assert_eq!(entries.words(), &vec!["one".to_string(), "two".to_string(), "three".to_string()]);
}

#[test]
fn test_reset_blacklist_empties_the_store() {
    let mut store = BlacklistStore::new();
    let _ = init_blacklist_from_path(
        &mut store,
        "list.txt",
        BlacklistSource::Content(lines(&["one"])),
    );
    assert!(store.is_loaded());
    reset_blacklist_for_testing(&mut store);
    assert!(!store.is_loaded());
    assert!(!is_blacklisted(&store, "one"));
    let again = init_blacklist_from_path(
        &mut store,
        "list.txt",
        BlacklistSource::Content(lines(&["two", "three"])),
    );
    assert_eq!(again.unwrap(), 2);
}
