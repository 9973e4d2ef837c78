use std::cell::Cell;

use wfinfo::config::CaptureMode;

use wfinfo::main_ui::{
    apply_window_title_edit, capture_status_label, detection_status_label, DetectionState,
    MainUiState, SettingsLauncher, WindowCaptureState, WindowTitleState,
};

struct TestLauncher {
    calls: Cell<usize>,
    result: Result<(), String>,
}

impl TestLauncher {
    fn new(result: Result<(), String>) -> Self {
        Self {
            calls: Cell::new(0),
            result,
        }
    }
}

impl SettingsLauncher for TestLauncher {
    fn open_settings(&self) -> Result<(), String> {
        self.calls.set(self.calls.get() + 1);
        self.result.clone()
    }
}

#[test]
fn detection_state_tracks_running() {
    let state = DetectionState::new();
    assert!(!state.is_running());

    state.set_running(true);
    assert!(state.is_running());
    assert_eq!(state.status_label(), "Running");

    state.set_running(false);
    assert!(!state.is_running());
    assert_eq!(state.status_label(), "Idle");
}

#[test]
fn open_settings_clears_error_on_success() {
    let detection = DetectionState::new();
    let launcher = TestLauncher::new(Ok(()));
    let mut state = MainUiState::new(detection, launcher);
    state.last_error = Some("previous".to_string());

    let result = state.open_settings();

    assert!(result.is_ok());
    assert!(state.last_error.is_none());
    assert_eq!(state.launcher.calls.get(), 1);
}

#[test]
fn open_settings_stores_error_on_failure() {
    let detection = DetectionState::new();
    let launcher = TestLauncher::new(Err("boom".to_string()));
    let mut state = MainUiState::new(detection, launcher);

    let result = state.open_settings();

    assert!(result.is_err());
    assert_eq!(state.last_error.as_deref(), Some("boom"));
    assert_eq!(state.launcher.calls.get(), 1);
}

#[test]
fn window_title_state_updates_across_clones() {
    let state = WindowTitleState::new("Warframe".to_string());
    let clone = state.clone();

    assert_eq!(state.get(), "Warframe");
    clone.set("Warframe Test".to_string());

    assert_eq!(state.get(), "Warframe Test");
    assert_eq!(clone.get(), "Warframe Test");
}

#[test]
fn window_capture_state_reports_status() {
    let state = WindowCaptureState::new("Warframe".to_string());
    assert_eq!(state.status_label(), "No Window 'Warframe' found");

    state.set_found("Warframe".to_string());
    assert_eq!(state.status_label(), "Window Capture attached");

    state.set_not_found("Warframe Test".to_string());
    assert_eq!(state.status_label(), "No Window 'Warframe Test' found");
}

#[test]
fn detection_flag_is_shared_by_clones() {
    let state = DetectionState::new();
    let clone = state.clone();
    clone.set_running(true);
    assert!(state.is_running());
    assert_eq!(state.status_label(), "Running");
}

#[test]
fn capture_state_is_shared_by_clones() {
    let state = WindowCaptureState::new("Warframe".to_string());
    let clone = state.clone();
    clone.set_found("Primary Monitor".to_string());
    assert_eq!(state.status_label(), "Window Capture attached");
}

#[test]
fn status_labels_for_each_state() {
    assert_eq!(detection_status_label(true), "Running");
    assert_eq!(detection_status_label(false), "Idle");
    assert_eq!(capture_status_label(true, "x"), "Window Capture attached");
    assert_eq!(capture_status_label(false, ""), "No Window '' found");
}

#[test]
fn repeated_failures_keep_the_latest_error() {
    let mut state = MainUiState::new(DetectionState::new(), TestLauncher::new(Err("e".to_string())));
    let _ = state.open_settings();
    let _ = state.open_settings();
    assert_eq!(state.launcher.calls.get(), 2);
    assert_eq!(state.last_error.as_deref(), Some("e"));
}

#[test]
fn recorded_outcome_is_returned_and_kept() {
    let launcher = TestLauncher::new(Ok(()));
    let mut state = MainUiState::new(DetectionState::new(), launcher);

    let failed = state.record_settings_outcome(Err("no display".to_string()));
    assert_eq!(failed, Err("no display".to_string()));
    assert_eq!(state.last_error.as_deref(), Some("no display"));

    let opened = state.record_settings_outcome(Ok(()));
    assert_eq!(opened, Ok(()));
    assert!(state.last_error.is_none());
    assert_eq!(state.launcher.calls.get(), 0);
}

#[test]
fn window_title_edit_trims_and_resets_capture_in_window_mode() {
    let titles = WindowTitleState::new("Warframe".to_string());
    let capture = WindowCaptureState::new("Warframe".to_string());
    capture.set_found("Warframe".to_string());

    let (title, reset) =
        apply_window_title_edit("  Warframe Test ", CaptureMode::Window, &titles, &capture);
    assert_eq!(title, "Warframe Test");
    assert!(reset);
    assert_eq!(titles.get(), "Warframe Test");
    assert_eq!(capture.status_label(), "No Window 'Warframe Test' found");
}

#[test]
fn window_title_edit_keeps_capture_in_monitor_mode() {
    let titles = WindowTitleState::new("Warframe".to_string());
    let capture = WindowCaptureState::new("Warframe".to_string());
    capture.set_found("Primary Monitor".to_string());

    let (title, reset) = apply_window_title_edit("Other\n", CaptureMode::Monitor, &titles, &capture);
    assert_eq!(title, "Other");
    assert!(!reset);
    assert_eq!(titles.get(), "Other");
    assert_eq!(capture.status_label(), "Window Capture attached");
}
