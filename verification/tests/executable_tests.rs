use scalpel_launcher::executable::{
    exe_candidates, find_desktop_exe, launch_desktop_app, launch_outcome, ExecutableCandidate,
    LaunchError,
};
use scalpel_launcher::locator::{COMPANION_KEY_BUNDLE, COMPANION_KEY_PRODUCT};
use scalpel_launcher::store::{ConfigStore, Scope};

fn icon_store() -> ConfigStore {
    let mut store = ConfigStore::new();
    store.record(
        Scope::User,
        COMPANION_KEY_PRODUCT,
        "DisplayIcon",
        "C:\\Program Files\\PvPScalpel\\app.exe,0",
    );
    store
}

fn full_store() -> ConfigStore {
    let mut store = icon_store();
    store.record(Scope::User, COMPANION_KEY_PRODUCT, "MainBinaryName", "scalpel.exe");
    store.record(Scope::User, COMPANION_KEY_PRODUCT, "InstallPath", "\"C:\\Path\\\"");
    store.record(Scope::User, COMPANION_KEY_PRODUCT, "InstallDir", "C:\\Dir,0/");
    store.record(Scope::Machine, COMPANION_KEY_BUNDLE, "DisplayIcon", "\"D:\\m\\icon.exe\\\"");
    store.record(Scope::Machine, COMPANION_KEY_BUNDLE, "InstallLocation", "D:\\m");
    store
}

fn in_dir(directory: &str, binary: &str) -> ExecutableCandidate {
    ExecutableCandidate::InDirectory { directory: directory.to_string(), binary: binary.to_string() }
}

#[test]
fn icon_value_gives_file_candidate() {
    let expected = ExecutableCandidate::File("C:\\Program Files\\PvPScalpel\\app.exe".to_string());
    assert_eq!(exe_candidates(&icon_store()), vec![expected.clone()]);
    assert_eq!(find_desktop_exe(&icon_store(), &vec![true]), Some(expected));
    assert_eq!(find_desktop_exe(&icon_store(), &vec![false]), None);
}

#[test]
fn candidates_come_in_search_order() {
    assert_eq!(
        exe_candidates(&full_store()),
        vec![
            ExecutableCandidate::File("C:\\Program Files\\PvPScalpel\\app.exe".to_string()),
            in_dir("C:\\Path", "scalpel.exe"),
            in_dir("C:\\Dir,0", "scalpel.exe"),
            ExecutableCandidate::File("D:\\m\\icon.exe\\".to_string()),
        ]
    );
}

#[test]
fn directories_without_binary_name_give_nothing() {
    let mut store = ConfigStore::new();
    store.record(Scope::User, COMPANION_KEY_PRODUCT, "InstallLocation", "C:\\X");
    assert_eq!(exe_candidates(&store), Vec::new());
    assert_eq!(find_desktop_exe(&store, &Vec::new()), None);
}

#[test]
fn first_existing_candidate_is_chosen() {
    let store = full_store();
    assert_eq!(
        find_desktop_exe(&store, &vec![false, false, true, true]),
        Some(in_dir("C:\\Dir,0", "scalpel.exe"))
    );
    assert_eq!(
        find_desktop_exe(&store, &vec![false, true, true, false]),
        Some(in_dir("C:\\Path", "scalpel.exe"))
    );
    assert_eq!(find_desktop_exe(&store, &vec![false, false, false, false]), None);
}

#[test]
fn missing_or_surplus_flags() {
    let store = full_store();
    assert_eq!(find_desktop_exe(&store, &vec![false, false]), None);
    assert_eq!(find_desktop_exe(&store, &Vec::new()), None);
    assert_eq!(find_desktop_exe(&store, &vec![false, false, false, false, true]), None);
}

#[test]
fn launch_reports_not_found() {
    assert_eq!(launch_desktop_app(&ConfigStore::new(), &Vec::new()), Err(LaunchError::NotFound));
    assert_eq!(launch_desktop_app(&icon_store(), &vec![false]), Err(LaunchError::NotFound));
    assert_eq!(LaunchError::NotFound.message(), "Desktop app not found");
}

#[test]
fn launch_names_the_executable() {
    assert_eq!(
        launch_desktop_app(&icon_store(), &vec![true]),
        Ok(ExecutableCandidate::File("C:\\Program Files\\PvPScalpel\\app.exe".to_string()))
    );
}

#[test]
fn spawn_failure_carries_detail() {
    assert_eq!(launch_outcome(None), Ok(()));
    let failed = launch_outcome(Some("access denied".to_string()));
    assert_eq!(failed, Err(LaunchError::SpawnFailed("access denied".to_string())));
    assert_eq!(
        failed.unwrap_err().message(),
        "Failed to launch desktop app: access denied"
    );
}

#[test]
fn duplicate_is_equal() {
    let c = in_dir("C:\\a", "b.exe");
    assert_eq!(c.duplicate(), c);
}
