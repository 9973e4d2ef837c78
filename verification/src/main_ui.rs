//! State shared between the main window and the detection worker.
//!
//! The detection flag, the window title and the capture status are shared by
//! every clone of their holder and may be changed from other threads, so what
//! a read returns is not determined by this thread alone; the labels derived
//! from a read are.

use std::sync::atomic::AtomicBool;
use std::sync::atomic::Ordering;
use std::sync::{Arc, Mutex};

use vstd::prelude::*;
use vstd::string::StringExecFns;

use crate::config::CaptureMode;
use crate::text::{trim_seq, trim_string};

verus! {

#[verifier::external_type_specification]
#[verifier::external_body]
#[verifier::reject_recursive_types(T)]
pub struct ExMutex<T: ?Sized>(Mutex<T>);

/// `Mutex::new`.
#[verifier::external_body]
fn new_mutex<T>(value: T) -> Mutex<T> {
    Mutex::new(value)
}

/// `Mutex::lock`, then a copy of the guarded value; `None` when the lock is
/// poisoned. The value depends on other threads, so nothing is stated of it.
#[verifier::external_body]
fn read_locked<T: Clone>(m: &Mutex<T>) -> Option<T> {
    match m.lock() {
        Ok(guard) => Some(guard.clone()),
        Err(_) => None,
    }
}

/// `Mutex::lock`, then the guarded value is replaced; a poisoned lock is
/// left alone.
#[verifier::external_body]
fn replace_locked<T>(m: &Mutex<T>, value: T) {
    if let Ok(mut guard) = m.lock() {
        *guard = value;
    }
}

/// Label shown for the detection flag.
pub open spec fn detection_label(running: bool) -> Seq<char> {
    if running {
        "Running"@
    } else {
        "Idle"@
    }
}

/// Computes `detection_label`.
pub fn detection_status_label(running: bool) -> (r: &'static str)
    ensures
        r@ == detection_label(running),
{
    if running {
        "Running"
    } else {
        "Idle"
    }
}

/// Label shown for the capture source.
pub open spec fn capture_label(found: bool, window_title: Seq<char>) -> Seq<char> {
    if found {
        "Window Capture attached"@
    } else {
        "No Window '"@ + window_title + "' found"@
    }
}

/// Computes `capture_label`.
pub fn capture_status_label(found: bool, window_title: &str) -> (r: String)
    ensures
        r@ == capture_label(found, window_title@),
{
    if found {
        "Window Capture attached".to_owned()
    } else {
        "No Window '".to_owned().concat(window_title).concat("' found")
    }
}

/// Whether a detection is running, shared by all clones.
#[derive(Clone, Debug, Default)]
pub struct DetectionState {
    running: Arc<AtomicBool>,
}

impl DetectionState {
    /// A flag that is not set.
    pub fn new() -> Self {
        DetectionState { running: Arc::new(AtomicBool::new(false)) }
    }

    /// Sets the flag.
    pub fn set_running(&self, running: bool) {
        self.running.store(running, Ordering::SeqCst);
    }

    /// Reads the flag.
    pub fn is_running(&self) -> bool {
        self.running.load(Ordering::SeqCst)
    }

    /// "Running" or "Idle", after the flag as read.
    pub fn status_label(&self) -> (r: &'static str)
        ensures
            exists|running: bool| r@ == detection_label(running),
    {
        detection_status_label(self.is_running())
    }
}

/// The title of the game window, shared by all clones.
#[derive(Clone, Debug, Default)]
pub struct WindowTitleState {
    title: Arc<Mutex<String>>,
}

impl WindowTitleState {
    /// Holds `initial`.
    pub fn new(initial: String) -> Self {
        WindowTitleState { title: Arc::new(new_mutex(initial)) }
    }

    /// The title held; empty when the lock is poisoned.
    pub fn get(&self) -> String {
        match read_locked(&*self.title) {
            Some(title) => title,
            None => String::new(),
        }
    }

    /// Replaces the title held.
    pub fn set(&self, value: String) {
        replace_locked(&*self.title, value);
    }
}

#[derive(Clone, Debug)]
struct WindowCaptureStatus {
    found: bool,
    window_title: String,
}

/// Whether the capture source was found, shared by all clones.
#[derive(Clone, Debug)]
pub struct WindowCaptureState {
    status: Arc<Mutex<WindowCaptureStatus>>,
}

impl WindowCaptureState {
    /// Not found yet, looking for `initial_window`.
    pub fn new(initial_window: String) -> Self {
        WindowCaptureState {
            status: Arc::new(
                new_mutex(WindowCaptureStatus { found: false, window_title: initial_window }),
            ),
        }
    }

    /// Records that the source titled `window_title` was found.
    pub fn set_found(&self, window_title: String) {
        self.set_status(true, window_title);
    }

    /// Records that no source titled `window_title` was found.
    pub fn set_not_found(&self, window_title: String) {
        self.set_status(false, window_title);
    }

    /// The label for the status as read (see `capture_label`), or a notice
    /// when the status cannot be read.
    pub fn status_label(&self) -> (r: String)
        ensures
            r@ == "Window capture status unavailable"@ || exists|found: bool, title: Seq<char>|
                r@ == capture_label(found, title),
    {
        match read_locked(&*self.status) {
            Some(status) => capture_status_label(status.found, status.window_title.as_str()),
            None => "Window capture status unavailable".to_owned(),
        }
    }

    fn set_status(&self, found: bool, window_title: String) {
        replace_locked(&*self.status, WindowCaptureStatus { found, window_title });
    }
}

/// Opens the settings window; implemented by the program.
pub trait SettingsLauncher {
    fn open_settings(&self) -> Result<(), String>;
}

/// State of the main window.
pub struct MainUiState<L: SettingsLauncher> {
    pub detection: DetectionState,
    /// The error of the last attempt to open the settings, if it failed.
    pub last_error: Option<String>,
    pub launcher: L,
}

impl<L: SettingsLauncher> MainUiState<L> {
    /// No error recorded.
    pub fn new(detection: DetectionState, launcher: L) -> (s: Self)
        ensures
            s.detection == detection,
            s.last_error is None,
            s.launcher == launcher,
    {
        MainUiState { detection, last_error: None, launcher }
    }

    /// Records the launcher's answer to a request to open the settings and
    /// returns it: a success clears the recorded error, a failure records
    /// its message.
    pub fn record_settings_outcome(&mut self, outcome: Result<(), String>) -> (r: Result<(), String>)
        ensures
            r == outcome,
            final(self).detection == old(self).detection,
            final(self).launcher == old(self).launcher,
            final(self).last_error == match outcome {
                Ok(()) => None,
                Err(e) => Some(e),
            },
    {
        match &outcome {
            Ok(()) => {
                self.last_error = None;
            },
            Err(err) => {
                self.last_error = Some(err.clone());
            },
        }
        outcome
    }

    /// Asks the launcher to open the settings and records its answer (see
    /// `record_settings_outcome`). What the launcher answers is up to the
    /// program's implementation, so this states only how the answer is
    /// recorded.
    pub fn open_settings(&mut self) -> (r: Result<(), String>)
        ensures
            final(self).detection == old(self).detection,
            final(self).launcher == old(self).launcher,
            final(self).last_error == match r {
                Ok(()) => None,
                Err(e) => Some(e),
            },
    {
        let outcome = self.launcher.open_settings();
        self.record_settings_outcome(outcome)
    }
}


/// Whether the window at position `i` of `windows` is titled `title`.
pub open spec fn window_titled(windows: Seq<Option<String>>, i: int, title: Seq<char>) -> bool {
    windows[i] matches Some(t) && t@ == title
}

/// The first window titled exactly `title`, given the titles of the open
/// windows (`None` for a window whose title could not be read), or `None`
/// when the windows could not be listed. Records in `capture_state` whether
/// the window was found.
pub fn find_window_by_title(
    windows: Option<&Vec<Option<String>>>,
    title: &str,
    capture_state: &WindowCaptureState,
) -> (r: Option<usize>)
    ensures
        windows is None ==> r is None,
        windows matches Some(w) ==> match r {
            None => forall|j: int| 0 <= j < w@.len() ==> !window_titled(w@, j, title@),
            Some(i) => {
                &&& i < w@.len()
                &&& window_titled(w@, i as int, title@)
                &&& forall|j: int| 0 <= j < i ==> !window_titled(w@, j, title@)
            },
        },
{
    let wanted = title.to_owned();
    match windows {
        Some(list) => {
            let mut i: usize = 0;
            while i < list.len()
                invariant
                    i <= list.len(),
                    windows == Some(list),
                    wanted@ == title@,
                    forall|j: int| 0 <= j < i ==> !window_titled(list@, j, title@),
                decreases list.len() - i,
            {
                if let Some(t) = &list[i] {
                    if *t == wanted {
                        capture_state.set_found(wanted);
                        return Some(i);
                    }
                }
                i = i + 1;
            }
            capture_state.set_not_found(wanted);
            None
        },
        None => {
            capture_state.set_not_found(wanted);
            None
        },
    }
}

/// What editing the window title in the main window does: the trimmed title
/// is stored in `title_state` and returned; in window mode the capture
/// status is also reset to "not found" for the new title, which the second
/// result reports.
pub fn apply_window_title_edit(
    input: &str,
    capture_mode: CaptureMode,
    title_state: &WindowTitleState,
    capture_state: &WindowCaptureState,
) -> (r: (String, bool))
    ensures
        r.0@ == trim_seq(input@),
        r.1 == (capture_mode == CaptureMode::Window),
{
    let title = trim_string(input);
    title_state.set(title.clone());
    match capture_mode {
        CaptureMode::Window => {
            capture_state.set_not_found(title.clone());
            (title, true)
        },
        CaptureMode::Monitor => (title, false),
    }
}

} // verus!
