use fps_unlock::error::UnlockError;
use fps_unlock::shell::FPSUnlockerApp;

fn lines(current_fps: Option<i64>) -> Vec<String> {
    let mut app = FPSUnlockerApp::default();
    app.current_fps = current_fps;
    app.frame_rate_lines()
}

#[test]
fn a_new_window_shows_nothing() {
    let app = FPSUnlockerApp::default();
    assert_eq!(app.db_path, "");
    assert_eq!(app.status, "");
    assert_eq!(app.current_fps, None);
    assert!(app.frame_rate_lines().is_empty());
}

#[test]
fn a_located_path_is_kept_and_read_next() {
    let mut app = FPSUnlockerApp::default();
    app.status = "before".to_string();
    let read_next = app.located(Ok("D:\\Games\\LocalStorage.db".to_string()));
    assert!(read_next);
    assert_eq!(app.db_path, "D:\\Games\\LocalStorage.db");
    assert_eq!(app.status, "before");
    assert_eq!(app.current_fps, None);
}

#[test]
fn a_failed_lookup_goes_into_the_status() {
    let mut app = FPSUnlockerApp::default();
    app.db_path = "old.db".to_string();
    let read_next = app.located(Err(UnlockError::Registry));
    assert!(!read_next);
    assert_eq!(app.db_path, "old.db");
    assert_eq!(
        app.status,
        "Error locating game: Registry error: Could not access the registry key or value."
    );
}

#[test]
fn a_chosen_path_is_kept_and_read_next() {
    let mut app = FPSUnlockerApp::default();
    assert!(app.browsed(Some("/tmp/LocalStorage.db".to_string())));
    assert_eq!(app.db_path, "/tmp/LocalStorage.db");
    assert_eq!(app.status, "");
}

#[test]
fn a_cancelled_dialog_changes_nothing() {
    let mut app = FPSUnlockerApp::default();
    app.db_path = "old.db".to_string();
    app.status = "before".to_string();
    app.current_fps = Some(60);
    assert!(!app.browsed(None));
    assert_eq!(app.db_path, "old.db");
    assert_eq!(app.status, "before");
    assert_eq!(app.current_fps, Some(60));
}

#[test]
fn a_read_frame_rate_is_shown() {
    let mut app = FPSUnlockerApp::default();
    app.status = "before".to_string();
    app.frame_rate_read(Ok(60));
    assert_eq!(app.current_fps, Some(60));
    assert_eq!(app.status, "before");
}

#[test]
fn a_failed_read_goes_into_the_status_and_keeps_the_frame_rate() {
    let mut app = FPSUnlockerApp::default();
    app.current_fps = Some(60);
    app.frame_rate_read(Err(UnlockError::FileNotFound("gone.db".to_string())));
    assert_eq!(app.current_fps, Some(60));
    assert_eq!(
        app.status,
        "Error reading FPS setting: File not found or inaccessible: gone.db"
    );
}

#[test]
fn the_message_of_a_patch_becomes_the_status() {
    let mut app = FPSUnlockerApp::default();
    app.db_path = "a.db".to_string();
    app.current_fps = Some(60);
    app.patched(Ok("FPS successfully unlocked to 120!".to_string()));
    assert_eq!(app.status, "FPS successfully unlocked to 120!");
    assert_eq!(app.db_path, "a.db");
    assert_eq!(app.current_fps, Some(60));
}

#[test]
fn the_failure_of_a_patch_becomes_the_status() {
    let mut app = FPSUnlockerApp::default();
    app.patched(Err(UnlockError::Store("database is locked".to_string())));
    assert_eq!(app.status, "Error: Database error: database is locked");
    app.patched(Err(UnlockError::Parse("expected value at line 1 column 1".to_string())));
    assert_eq!(app.status, "Error: JSON error: expected value at line 1 column 1");
}

#[test]
fn a_frame_rate_is_shown_under_a_heading() {
    assert_eq!(lines(Some(60)), vec!["Current FPS Setting:", "KeyCustomFrameRate: 60"]);
    assert_eq!(lines(Some(-5)), vec!["Current FPS Setting:", "KeyCustomFrameRate: -5"]);
}

#[test]
fn a_frame_rate_that_the_tool_sets_gets_a_note() {
    assert_eq!(
        lines(Some(120)),
        vec![
            "Current FPS Setting:",
            "KeyCustomFrameRate: 120",
            "FPS is already set to 120. No need to patch."
        ]
    );
    assert_eq!(
        lines(Some(165)),
        vec![
            "Current FPS Setting:",
            "KeyCustomFrameRate: 165",
            "FPS is already set to 165. No need to patch."
        ]
    );
}
