use overlay_supervisor::error::{os_outcome, OverlayError};
use overlay_supervisor::locate::{
    first_existing, pick_first_usable, HelperSearch, ProbedPath, HELPER_BELOW_INSTALL_ROOT,
    HELPER_BELOW_WORKING_DIR, HELPER_PATH_VARIABLE, INSTALL_ROOT_LEVELS_ABOVE_EXECUTABLE,
};

fn probed(path: &str, exists: bool) -> ProbedPath {
    ProbedPath { path: path.to_string(), exists }
}

#[test]
fn override_wins_over_existing_candidates() {
    let search = HelperSearch {
        explicit: Some(probed("/opt/helper", true)),
        working_dir: Some(probed("/cwd/macos/OutlineHelper/OutlineHelper", true)),
        install_root: Some(probed("/root/src-tauri/macos/OutlineHelper/OutlineHelper", true)),
    };
    assert_eq!(search.resolve(), Ok("/opt/helper".to_string()));
}

#[test]
fn override_without_other_candidates() {
    let search = HelperSearch {
        explicit: Some(probed("/opt/helper", true)),
        working_dir: None,
        install_root: None,
    };
    assert_eq!(search.resolve(), Ok("/opt/helper".to_string()));
}

#[test]
fn missing_override_gives_way_to_the_working_dir() {
    let search = HelperSearch {
        explicit: Some(probed("/nowhere", false)),
        working_dir: Some(probed("/cwd/helper", true)),
        install_root: Some(probed("/root/helper", true)),
    };
    assert_eq!(search.resolve(), Ok("/cwd/helper".to_string()));
}

#[test]
fn missing_override_gives_way_to_the_install_root() {
    let search = HelperSearch {
        explicit: Some(probed("/nowhere", false)),
        working_dir: Some(probed("/cwd/helper", false)),
        install_root: Some(probed("/root/helper", true)),
    };
    assert_eq!(search.resolve(), Ok("/root/helper".to_string()));
}

#[test]
fn missing_override_alone_is_no_helper() {
    let search = HelperSearch {
        explicit: Some(probed("/nowhere", false)),
        working_dir: None,
        install_root: None,
    };
    assert_eq!(search.resolve(), Err(OverlayError::HelperNotFound));
    let search = HelperSearch {
        explicit: Some(probed("/nowhere", false)),
        working_dir: Some(probed("/cwd/helper", false)),
        install_root: Some(probed("/root/helper", false)),
    };
    assert_eq!(search.resolve(), Err(OverlayError::HelperNotFound));
}

#[test]
fn pick_first_usable_goes_by_position() {
    assert_eq!(
        pick_first_usable(Some(probed("a", false)), Some(probed("b", true)), Some(probed("c", true))),
        Some("b".to_string())
    );
    assert_eq!(pick_first_usable(None, None, Some(probed("c", true))), Some("c".to_string()));
    assert_eq!(pick_first_usable(Some(probed("a", false)), None, None), None);
    assert_eq!(pick_first_usable(None, None, None), None);
}

#[test]
fn working_dir_is_preferred_over_install_root() {
    let search = HelperSearch {
        explicit: None,
        working_dir: Some(probed("/cwd/helper", true)),
        install_root: Some(probed("/root/helper", true)),
    };
    assert_eq!(search.resolve(), Ok("/cwd/helper".to_string()));
}

#[test]
fn install_root_is_the_fallback() {
    let search = HelperSearch {
        explicit: None,
        working_dir: Some(probed("/cwd/helper", false)),
        install_root: Some(probed("/root/helper", true)),
    };
    assert_eq!(search.resolve(), Ok("/root/helper".to_string()));
    let search = HelperSearch {
        explicit: None,
        working_dir: None,
        install_root: Some(probed("/root/helper", true)),
    };
    assert_eq!(search.resolve(), Ok("/root/helper".to_string()));
}

#[test]
fn helper_not_found_when_nothing_exists() {
    let search = HelperSearch {
        explicit: None,
        working_dir: Some(probed("/cwd/helper", false)),
        install_root: Some(probed("/root/helper", false)),
    };
    assert_eq!(search.resolve(), Err(OverlayError::HelperNotFound));
    let search = HelperSearch { explicit: None, working_dir: None, install_root: None };
    assert_eq!(search.resolve(), Err(OverlayError::HelperNotFound));
}

#[test]
fn first_existing_takes_the_earliest() {
    let candidates = vec![probed("a", false), probed("b", true), probed("c", true)];
    assert_eq!(first_existing(&candidates), Some(1));
    let candidates = vec![probed("a", true)];
    assert_eq!(first_existing(&candidates), Some(0));
}

#[test]
fn first_existing_of_none() {
    let candidates = vec![probed("a", false), probed("b", false)];
    assert_eq!(first_existing(&candidates), None);
    assert_eq!(first_existing(&Vec::new()), None);
}

#[test]
fn search_constants() {
    assert_eq!(HELPER_PATH_VARIABLE, "OUTLINE_HELPER_PATH");
    assert_eq!(HELPER_BELOW_WORKING_DIR, "macos/OutlineHelper/OutlineHelper");
    assert_eq!(HELPER_BELOW_INSTALL_ROOT, "src-tauri/macos/OutlineHelper/OutlineHelper");
    assert_eq!(INSTALL_ROOT_LEVELS_ABOVE_EXECUTABLE, 3);
}

#[test]
fn system_reports_become_failures() {
    assert_eq!(os_outcome(Ok::<u8, String>(3)), Ok(3));
    assert_eq!(
        os_outcome::<u8>(Err("Broken pipe (os error 32)".to_string())),
        Err(OverlayError::Os("Broken pipe (os error 32)".to_string()))
    );
}

#[test]
fn error_messages() {
    assert_eq!(
        OverlayError::HelperNotFound.message(),
        "Не найден OutlineHelper. Соберите через: bash skygen-ui/src-tauri/macos/build_outline_helper.sh или задайте OUTLINE_HELPER_PATH"
    );
    assert_eq!(OverlayError::HelperNotRunning.message(), "OutlineHelper не запущен");
    assert_eq!(OverlayError::OutlineUnsupported.message(), "Outline доступен только на macOS");
    assert_eq!(OverlayError::NoDisplay.message(), "Не удалось получить информацию о мониторе");
    assert_eq!(OverlayError::Os("broken pipe".to_string()).message(), "broken pipe");
}
