use scalpel_launcher::locator::{
    get_desktop_path, get_desktop_version, get_wow_path, COMPANION_KEY_BUNDLE,
    COMPANION_KEY_BUNDLE_COMPAT, COMPANION_KEY_PRODUCT, GAME_FALLBACK_KEY, GAME_PRIMARY_KEY,
};
use scalpel_launcher::store::{ConfigStore, Scope};

#[test]
fn key_paths_are_exact() {
    assert_eq!(
        GAME_PRIMARY_KEY,
        r"SOFTWARE\WOW6432Node\Microsoft\Windows\CurrentVersion\Uninstall\Battle.net\Game\wow"
    );
    assert_eq!(GAME_FALLBACK_KEY, r"SOFTWARE\WOW6432Node\Blizzard Entertainment\World of Warcraft");
    assert_eq!(
        COMPANION_KEY_PRODUCT,
        r"SOFTWARE\Microsoft\Windows\CurrentVersion\Uninstall\PvP Scalpel"
    );
    assert_eq!(
        COMPANION_KEY_BUNDLE,
        r"SOFTWARE\Microsoft\Windows\CurrentVersion\Uninstall\bg.pvpscalpel.desktop"
    );
    assert_eq!(
        COMPANION_KEY_BUNDLE_COMPAT,
        r"SOFTWARE\WOW6432Node\Microsoft\Windows\CurrentVersion\Uninstall\bg.pvpscalpel.desktop"
    );
}

#[test]
fn wow_path_from_fallback_key_only() {
    let mut store = ConfigStore::new();
    store.record(Scope::Machine, GAME_FALLBACK_KEY, "InstallPath", "D:\\Games\\WoW\\_retail_");
    assert_eq!(
        get_wow_path(&store),
        Some("D:\\Games\\WoW\\_retail_\\Interface\\AddOns".to_string())
    );
}

#[test]
fn wow_path_prefers_primary_key_and_cleans() {
    let mut store = ConfigStore::new();
    store.record(Scope::Machine, GAME_FALLBACK_KEY, "InstallPath", "D:\\Old");
    store.record(Scope::Machine, GAME_PRIMARY_KEY, "InstallLocation", "\"E:\\WoW\\\\\"");
    assert_eq!(get_wow_path(&store), Some("E:\\WoW\\Interface\\AddOns".to_string()));
}

#[test]
fn wow_path_ignores_other_scope_and_names() {
    let mut store = ConfigStore::new();
    store.record(Scope::User, GAME_PRIMARY_KEY, "InstallLocation", "E:\\WoW");
    store.record(Scope::Machine, GAME_PRIMARY_KEY, "InstallPath", "E:\\WoW");
    store.record(Scope::Machine, GAME_FALLBACK_KEY, "InstallLocation", "E:\\WoW");
    assert_eq!(get_wow_path(&store), None);
    assert_eq!(get_wow_path(&ConfigStore::new()), None);
}

#[test]
fn desktop_path_scope_is_outermost() {
    let mut store = ConfigStore::new();
    store.record(Scope::Machine, COMPANION_KEY_PRODUCT, "InstallLocation", "C:\\Machine");
    store.record(Scope::User, COMPANION_KEY_BUNDLE_COMPAT, "InstallDir", "C:\\User\\");
    assert_eq!(get_desktop_path(&store), Some("C:\\User".to_string()));
}

#[test]
fn desktop_path_key_before_value_name() {
    let mut store = ConfigStore::new();
    store.record(Scope::User, COMPANION_KEY_BUNDLE, "InstallLocation", "C:\\Second");
    store.record(Scope::User, COMPANION_KEY_PRODUCT, "DisplayIcon", "C:\\First\\app.exe,0");
    assert_eq!(get_desktop_path(&store), Some("C:\\First".to_string()));
}

#[test]
fn desktop_path_value_names_in_order() {
    let mut store = ConfigStore::new();
    store.record(Scope::Machine, COMPANION_KEY_BUNDLE, "DisplayIcon", "C:\\Icon\\app.exe");
    store.record(Scope::Machine, COMPANION_KEY_BUNDLE, "InstallDir", "C:\\Dir");
    assert_eq!(get_desktop_path(&store), Some("C:\\Dir".to_string()));
    store.record(Scope::Machine, COMPANION_KEY_BUNDLE, "InstallPath", "C:\\Path");
    assert_eq!(get_desktop_path(&store), Some("C:\\Path".to_string()));
    store.record(Scope::Machine, COMPANION_KEY_BUNDLE, "InstallLocation", "\"C:\\Loc\\\",1");
    assert_eq!(get_desktop_path(&store), Some("C:\\Loc".to_string()));
}

#[test]
fn desktop_path_icon_without_parent_is_passed_over() {
    let mut store = ConfigStore::new();
    store.record(Scope::User, COMPANION_KEY_PRODUCT, "DisplayIcon", "");
    store.record(Scope::Machine, COMPANION_KEY_PRODUCT, "InstallPath", "C:\\Later");
    assert_eq!(get_desktop_path(&store), Some("C:\\Later".to_string()));
}

#[test]
fn desktop_path_none_when_nothing_registered() {
    let mut store = ConfigStore::new();
    store.record(Scope::User, COMPANION_KEY_PRODUCT, "DisplayVersion", "1.0");
    store.record(Scope::User, "SOFTWARE\\Other", "InstallLocation", "C:\\Other");
    assert_eq!(get_desktop_path(&store), None);
}

#[test]
fn desktop_version_is_raw_and_ordered() {
    let mut store = ConfigStore::new();
    store.record(Scope::Machine, COMPANION_KEY_PRODUCT, "DisplayVersion", "9.9.9");
    store.record(Scope::User, COMPANION_KEY_BUNDLE, "ProductVersion", " \"2.0\",x\\ ");
    assert_eq!(get_desktop_version(&store), Some(" \"2.0\",x\\ ".to_string()));
    store.record(Scope::User, COMPANION_KEY_BUNDLE, "Version", "2.1");
    assert_eq!(get_desktop_version(&store), Some("2.1".to_string()));
    store.record(Scope::User, COMPANION_KEY_BUNDLE, "DisplayVersion", "2.2");
    assert_eq!(get_desktop_version(&store), Some("2.2".to_string()));
    store.record(Scope::User, COMPANION_KEY_PRODUCT, "ProductVersion", "3.0");
    assert_eq!(get_desktop_version(&store), Some("3.0".to_string()));
}

#[test]
fn desktop_version_none_without_version_values() {
    let mut store = ConfigStore::new();
    store.record(Scope::User, COMPANION_KEY_PRODUCT, "InstallLocation", "C:\\X");
    assert_eq!(get_desktop_version(&store), None);
}

#[test]
fn searched_tuples_cover_all_queries() {
    let tuples = scalpel_launcher::locator::searched_tuples();
    assert_eq!(tuples.len(), 2 + 6 * 8);
    assert_eq!(tuples[0].scope, Scope::Machine);
    assert_eq!(tuples[0].key_path, GAME_PRIMARY_KEY);
    assert_eq!(tuples[0].value_name, "InstallLocation");
    assert_eq!(tuples[1].key_path, GAME_FALLBACK_KEY);
    assert_eq!(tuples[1].value_name, "InstallPath");
    assert_eq!(tuples[2].scope, Scope::User);
    assert_eq!(tuples[2].key_path, COMPANION_KEY_PRODUCT);
    assert_eq!(tuples[9].value_name, "MainBinaryName");
    assert_eq!(tuples[10].key_path, COMPANION_KEY_BUNDLE);
    assert_eq!(tuples[26].scope, Scope::Machine);
    assert_eq!(tuples[26].key_path, COMPANION_KEY_PRODUCT);
    assert_eq!(tuples[49].scope, Scope::Machine);
    assert_eq!(tuples[49].key_path, COMPANION_KEY_BUNDLE_COMPAT);
    assert_eq!(tuples[49].value_name, "MainBinaryName");
}

#[test]
fn snapshot_of_searched_tuples_answers_like_the_full_store() {
    let mut full = ConfigStore::new();
    full.record(Scope::Machine, GAME_FALLBACK_KEY, "InstallPath", "D:\\WoW\\");
    full.record(Scope::Machine, COMPANION_KEY_BUNDLE, "DisplayIcon", "\"C:\\App\\app.exe\",0");
    full.record(Scope::Machine, COMPANION_KEY_BUNDLE, "ProductVersion", "4.5.6");
    full.record(Scope::User, "SOFTWARE\\Unrelated", "InstallLocation", "C:\\Nope");
    full.record(Scope::User, COMPANION_KEY_PRODUCT, "Publisher", "Nobody");
    let mut snapshot = ConfigStore::new();
    for tuple in scalpel_launcher::locator::searched_tuples() {
        if let Some(data) = full.read(&tuple) {
            snapshot.record(tuple.scope, &tuple.key_path, &tuple.value_name, &data);
        }
    }
    assert_eq!(snapshot.entries.len(), 3);
    assert_eq!(get_wow_path(&snapshot), get_wow_path(&full));
    assert_eq!(get_wow_path(&snapshot), Some("D:\\WoW\\Interface\\AddOns".to_string()));
    assert_eq!(get_desktop_path(&snapshot), get_desktop_path(&full));
    assert_eq!(get_desktop_path(&snapshot), Some("C:\\App".to_string()));
    assert_eq!(get_desktop_version(&snapshot), get_desktop_version(&full));
    assert_eq!(get_desktop_version(&snapshot), Some("4.5.6".to_string()));
    assert_eq!(
        scalpel_launcher::executable::exe_candidates(&snapshot),
        scalpel_launcher::executable::exe_candidates(&full)
    );
}

#[test]
fn desktop_path_passes_over_empty_value() {
    let mut store = ConfigStore::new();
    store.record(Scope::User, COMPANION_KEY_PRODUCT, "InstallLocation", "");
    store.record(Scope::User, COMPANION_KEY_PRODUCT, "InstallPath", "C:\\App");
    assert_eq!(get_desktop_path(&store), Some("C:\\App".to_string()));
}

#[test]
fn desktop_path_passes_over_value_cleaned_to_nothing() {
    let mut store = ConfigStore::new();
    store.record(Scope::User, COMPANION_KEY_PRODUCT, "InstallLocation", "\"\\\",0");
    store.record(Scope::User, COMPANION_KEY_PRODUCT, "InstallPath", "\"\"");
    store.record(Scope::User, COMPANION_KEY_PRODUCT, "InstallDir", ",C:\\X");
    store.record(Scope::Machine, COMPANION_KEY_BUNDLE, "InstallDir", "C:\\App\\");
    assert_eq!(get_desktop_path(&store), Some("C:\\App".to_string()));
}

#[test]
fn desktop_path_passes_over_icon_with_empty_parent() {
    let mut store = ConfigStore::new();
    store.record(Scope::User, COMPANION_KEY_PRODUCT, "DisplayIcon", "app.exe");
    assert_eq!(get_desktop_path(&store), None);
    store.record(Scope::Machine, COMPANION_KEY_BUNDLE_COMPAT, "DisplayIcon", "C:\\app.exe,0");
    assert_eq!(get_desktop_path(&store), Some("C:\\".to_string()));
}

#[test]
fn desktop_path_none_when_all_values_are_empty() {
    let mut store = ConfigStore::new();
    for scope in [Scope::User, Scope::Machine] {
        for key in [COMPANION_KEY_PRODUCT, COMPANION_KEY_BUNDLE, COMPANION_KEY_BUNDLE_COMPAT] {
            for name in ["InstallLocation", "InstallPath", "InstallDir", "DisplayIcon"] {
                store.record(scope, key, name, "");
            }
        }
    }
    assert_eq!(get_desktop_path(&store), None);
}

#[test]
fn desktop_path_ignores_what_stands_behind_the_first_hit() {
    let mut first = ConfigStore::new();
    first.record(Scope::User, COMPANION_KEY_BUNDLE, "InstallPath", "C:\\Hit");
    let mut second = ConfigStore::new();
    second.record(Scope::User, COMPANION_KEY_BUNDLE, "InstallPath", "C:\\Hit");
    second.record(Scope::User, COMPANION_KEY_BUNDLE, "InstallDir", "C:\\Later");
    second.record(Scope::Machine, COMPANION_KEY_PRODUCT, "InstallLocation", "C:\\Last");
    assert_eq!(get_desktop_path(&first), get_desktop_path(&second));
    assert_eq!(get_desktop_path(&second), Some("C:\\Hit".to_string()));
}
