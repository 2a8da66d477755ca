use update_engine::language::Language;
use update_engine::messages::UpdateMsg;
use update_engine::observer::{delay_remaining, UpdateApp};

fn fresh() -> UpdateApp {
    UpdateApp::new(
        "pkg.zip".to_string(),
        Language::English,
        Some("tgt".to_string()),
        "".to_string(),
        0,
    )
}

#[test]
fn new_app_shows_preparing() {
    let app = fresh();
    assert_eq!(app.package_path, "pkg.zip");
    assert_eq!(app.target_path, Some("tgt".to_string()));
    assert_eq!(app.zip_inner_path, "");
    assert_eq!(app.total_files, 0);
    assert_eq!(app.current_file, 0);
    assert_eq!(app.status, "Preparing update...");
    assert_eq!(app.status_text, "Preparing update...");
    assert_eq!(app.current_file_name, "");
    assert!(!app.is_complete);
    assert!(app.error.is_none());
    assert_eq!(app.delay_seconds, 0);
}

#[test]
fn status_message_updates_both_lines() {
    let mut app = fresh();
    app.apply_msg(UpdateMsg::Status("Copying files...".to_string()));
    assert_eq!(app.status, "Copying files...");
    assert_eq!(app.status_text, "Copying files...");
    assert!(!app.is_complete);
}

#[test]
fn total_and_progress_update_counters() {
    let mut app = fresh();
    app.apply_msg(UpdateMsg::TotalFiles(9));
    assert_eq!(app.total_files, 9);
    app.apply_msg(UpdateMsg::Progress(4, 9, "lib/a.so".to_string()));
    assert_eq!(app.current_file, 4);
    assert_eq!(app.total_files, 9);
    assert_eq!(app.current_file_name, "lib/a.so");
}

#[test]
fn complete_snaps_counter_and_clears_name() {
    let mut app = fresh();
    app.apply_msg(UpdateMsg::TotalFiles(5));
    app.apply_msg(UpdateMsg::Progress(5, 5, "last.txt".to_string()));
    app.apply_msg(UpdateMsg::Complete);
    assert!(app.is_complete);
    assert_eq!(app.status, "Software update completed!");
    assert_eq!(app.current_file, 5);
    assert_eq!(app.current_file_name, "");
    assert!(app.error.is_none());
}

#[test]
fn error_records_text_and_failed_status() {
    let mut app = fresh();
    app.apply_msg(UpdateMsg::Error("disk full".to_string()));
    assert_eq!(app.status, "Software update failed!");
    assert_eq!(app.error, Some("disk full".to_string()));
    assert!(!app.is_complete);
}

#[test]
fn delay_counts_down_then_ends() {
    assert_eq!(delay_remaining(10, 3), Some(7));
    assert_eq!(delay_remaining(10, 10), None);
    assert_eq!(delay_remaining(10, 11), None);
    assert_eq!(delay_remaining(0, 0), None);
}
