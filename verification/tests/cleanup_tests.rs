use scalpel_launcher::resolver::{cleanup, resolve, CleanupPolicy};
use scalpel_launcher::store::{ConfigStore, Scope, SearchTuple};

fn dir(raw: &str) -> Option<String> {
    cleanup(raw, CleanupPolicy::DirectoryPath)
}

fn parent(raw: &str) -> Option<String> {
    cleanup(raw, CleanupPolicy::IconPathToParentDir)
}

#[test]
fn directory_cleanup_cuts_at_first_comma() {
    assert_eq!(dir("C:\\Apps\\Tool,0,1"), Some("C:\\Apps\\Tool".to_string()));
    assert_eq!(dir(",rest"), Some(String::new()));
    assert_eq!(dir("plain"), Some("plain".to_string()));
}

#[test]
fn directory_cleanup_trims_quotes_at_both_ends() {
    assert_eq!(dir("\"\"C:\\Apps\\Tool\"\""), Some("C:\\Apps\\Tool".to_string()));
    assert_eq!(dir("\"C:\\Apps\\To\"ol\""), Some("C:\\Apps\\To\"ol".to_string()));
    assert_eq!(dir("\"\""), Some(String::new()));
}

#[test]
fn directory_cleanup_trims_trailing_separators() {
    assert_eq!(dir("C:\\Apps\\Tool\\"), Some("C:\\Apps\\Tool".to_string()));
    assert_eq!(dir("C:/Apps/Tool//\\/"), Some("C:/Apps/Tool".to_string()));
    assert_eq!(dir("\\Apps"), Some("\\Apps".to_string()));
    assert_eq!(dir("\\/"), Some(String::new()));
}

#[test]
fn directory_cleanup_order_is_comma_quotes_separators() {
    assert_eq!(dir("\"C:\\Apps\\Tool\\\",7"), Some("C:\\Apps\\Tool".to_string()));
    // the quote stands before the separators, so it stays
    assert_eq!(dir("a\"\\"), Some("a\"".to_string()));
    assert_eq!(dir(""), Some(String::new()));
}

#[test]
fn directory_cleanup_keeps_other_characters() {
    assert_eq!(dir("C:\\Übung\\Spiel\\"), Some("C:\\Übung\\Spiel".to_string()));
    assert_eq!(dir(" C:\\a "), Some(" C:\\a ".to_string()));
}

#[test]
fn directory_cleanup_twice_is_once() {
    for raw in ["\"C:\\Apps\\Tool\\\",7", "C:/x//", "plain", "", "\"\"q\"\"", ",", "\\"] {
        let once = dir(raw).unwrap();
        assert_eq!(dir(&once), Some(once.clone()));
    }
}

#[test]
fn directory_cleanup_twice_differs_after_inner_quote() {
    let once = dir("a\"\\").unwrap();
    assert_eq!(once, "a\"");
    assert_eq!(dir(&once), Some("a".to_string()));
}

#[test]
fn icon_cleanup_takes_parent_directory() {
    assert_eq!(
        parent("C:\\Program Files\\PvPScalpel\\app.exe,0"),
        Some("C:\\Program Files\\PvPScalpel".to_string())
    );
    assert_eq!(parent("\"C:/Tools/app.exe\""), Some("C:/Tools".to_string()));
    assert_eq!(parent("C:\\a\\\\b.exe"), Some("C:\\a".to_string()));
}

#[test]
fn icon_cleanup_edge_cases() {
    assert_eq!(parent("app.exe"), Some(String::new()));
    assert_eq!(parent(""), None);
    assert_eq!(parent("\\"), None);
    assert_eq!(parent(",0"), None);
    assert_eq!(parent("C:\\"), None);
    assert_eq!(parent("C:"), None);
}

#[test]
fn icon_cleanup_keeps_the_root() {
    assert_eq!(parent("\\app.exe"), Some("\\".to_string()));
    assert_eq!(parent("/app.exe"), Some("/".to_string()));
    assert_eq!(parent("C:\\a.exe"), Some("C:\\".to_string()));
    assert_eq!(parent("c:/a.exe,0"), Some("c:/".to_string()));
    assert_eq!(parent("C:\\\\a.exe"), Some("C:\\".to_string()));
    assert_eq!(parent("C:a.exe"), Some("C:".to_string()));
    assert_eq!(parent("C:\\a\\b.exe"), Some("C:\\a".to_string()));
    assert_eq!(parent("1:\\a.exe"), Some("1:".to_string()));
}

#[test]
fn raw_version_is_untouched() {
    assert_eq!(
        cleanup(" \"1.2.3\",0\\ ", CleanupPolicy::RawVersion),
        Some(" \"1.2.3\",0\\ ".to_string())
    );
    assert_eq!(cleanup("", CleanupPolicy::RawVersion), Some(String::new()));
}

fn sample_store() -> ConfigStore {
    let mut store = ConfigStore::new();
    store.record(Scope::User, "K2", "Dir", "second\\");
    store.record(Scope::Machine, "K3", "Dir", "third");
    store
}

#[test]
fn resolve_returns_first_tuple_that_has_a_value() {
    let store = sample_store();
    let tuples = vec![
        SearchTuple::new(Scope::User, "K1", "Dir"),
        SearchTuple::new(Scope::User, "K2", "Dir"),
        SearchTuple::new(Scope::Machine, "K3", "Dir"),
    ];
    assert_eq!(
        resolve(&store, &tuples, CleanupPolicy::DirectoryPath),
        Some("second".to_string())
    );
    let reversed = vec![
        SearchTuple::new(Scope::Machine, "K3", "Dir"),
        SearchTuple::new(Scope::User, "K2", "Dir"),
    ];
    assert_eq!(
        resolve(&store, &reversed, CleanupPolicy::DirectoryPath),
        Some("third".to_string())
    );
}

#[test]
fn resolve_without_match_is_none() {
    let store = sample_store();
    let tuples = vec![
        SearchTuple::new(Scope::Machine, "K2", "Dir"),
        SearchTuple::new(Scope::User, "K2", "Other"),
        SearchTuple::new(Scope::User, "K", "Dir"),
    ];
    assert_eq!(resolve(&store, &tuples, CleanupPolicy::DirectoryPath), None);
    assert_eq!(resolve(&store, &Vec::new(), CleanupPolicy::RawVersion), None);
}

#[test]
fn resolve_passes_over_icon_without_parent() {
    let mut store = ConfigStore::new();
    store.record(Scope::User, "K1", "Icon", "\\");
    store.record(Scope::User, "K2", "Icon", "C:\\a\\b.exe,0");
    let tuples = vec![
        SearchTuple::new(Scope::User, "K1", "Icon"),
        SearchTuple::new(Scope::User, "K2", "Icon"),
    ];
    assert_eq!(
        resolve(&store, &tuples, CleanupPolicy::IconPathToParentDir),
        Some("C:\\a".to_string())
    );
}

#[test]
fn resolve_depends_only_on_searched_values() {
    let tuples = vec![SearchTuple::new(Scope::User, "K2", "Dir")];
    let first = sample_store();
    let mut second = ConfigStore::new();
    second.record(Scope::User, "K2", "Dir", "second\\");
    second.record(Scope::User, "Elsewhere", "Dir", "x");
    assert_eq!(
        resolve(&first, &tuples, CleanupPolicy::DirectoryPath),
        resolve(&second, &tuples, CleanupPolicy::DirectoryPath)
    );
}

#[test]
fn store_keeps_the_later_of_two_values() {
    let mut store = ConfigStore::new();
    store.record(Scope::User, "K", "V", "old");
    store.record(Scope::User, "K", "V", "new");
    assert_eq!(store.read(&SearchTuple::new(Scope::User, "K", "V")), Some("new".to_string()));
    assert_eq!(store.read(&SearchTuple::new(Scope::Machine, "K", "V")), None);
    assert!(SearchTuple::new(Scope::User, "K", "V").same_as(&SearchTuple::new(Scope::User, "K", "V")));
    assert!(!SearchTuple::new(Scope::User, "K", "V").same_as(&SearchTuple::new(Scope::User, "K", "W")));
}
