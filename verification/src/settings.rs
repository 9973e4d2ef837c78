//! The editable form of the configuration shown by the settings window.

use vstd::prelude::*;

use vstd::string::StringExecFns;

use crate::cache::{CacheRefreshState, DatabaseRefreshResult};
use crate::config::{opt_view, validation_failure, CaptureMode, Config, ConfigView};
use crate::text::{
    chars_of, decimal, decimal_string, is_whitespace, string_from_chars, trim_chars, trim_end_seq, trim_seq,
    trim_start_seq, trim_string,
};

verus! {

/// The settings as edited: every path is plain text, empty for "not set".
#[derive(Debug, Clone)]
pub struct SettingsState {
    pub game_log_file_path: String,
    pub window_name: String,
    pub hotkey: String,
    pub capture_delay_ms: u64,
    pub prices_file_path: String,
    pub items_file_path: String,
    pub log_level: String,
    pub log_timestamps: bool,
    pub save_screenshots: bool,
    pub capture_mode: CaptureMode,
}

/// Mathematical view of a `SettingsState`.
pub struct SettingsView {
    pub game_log_file_path: Seq<char>,
    pub window_name: Seq<char>,
    pub hotkey: Seq<char>,
    pub capture_delay_ms: u64,
    pub prices_file_path: Seq<char>,
    pub items_file_path: Seq<char>,
    pub log_level: Seq<char>,
    pub log_timestamps: bool,
    pub save_screenshots: bool,
    pub capture_mode: CaptureMode,
}

impl View for SettingsState {
    type V = SettingsView;

    open spec fn view(&self) -> SettingsView {
        SettingsView {
            game_log_file_path: self.game_log_file_path@,
            window_name: self.window_name@,
            hotkey: self.hotkey@,
            capture_delay_ms: self.capture_delay_ms,
            prices_file_path: self.prices_file_path@,
            items_file_path: self.items_file_path@,
            log_level: self.log_level@,
            log_timestamps: self.log_timestamps,
            save_screenshots: self.save_screenshots,
            capture_mode: self.capture_mode,
        }
    }
}

/// An optional path as text: the path itself, or empty when not set.
pub open spec fn path_text(p: Option<Seq<char>>) -> Seq<char> {
    match p {
        Some(p) => p,
        None => Seq::empty(),
    }
}

/// Text read back as an optional path: trimmed, and `None` when nothing is
/// left.
pub open spec fn parsed_path(text: Seq<char>) -> Option<Seq<char>> {
    if trim_seq(text).len() == 0 {
        None
    } else {
        Some(trim_seq(text))
    }
}

/// The settings shown for a configuration.
pub open spec fn settings_of(c: ConfigView) -> SettingsView {
    SettingsView {
        game_log_file_path: path_text(c.game_log_file_path),
        window_name: c.window_name,
        hotkey: c.hotkey,
        capture_delay_ms: c.capture_delay_ms,
        prices_file_path: path_text(c.prices_file_path),
        items_file_path: path_text(c.items_file_path),
        log_level: c.log_level,
        log_timestamps: c.log_timestamps,
        save_screenshots: c.save_screenshots,
        capture_mode: c.capture_mode,
    }
}

/// The configuration the settings stand for: names and level trimmed,
/// paths read back with `parsed_path`.
pub open spec fn config_of(s: SettingsView) -> ConfigView {
    ConfigView {
        game_log_file_path: parsed_path(s.game_log_file_path),
        window_name: trim_seq(s.window_name),
        hotkey: trim_seq(s.hotkey),
        capture_delay_ms: s.capture_delay_ms,
        prices_file_path: parsed_path(s.prices_file_path),
        items_file_path: parsed_path(s.items_file_path),
        log_level: trim_seq(s.log_level),
        log_timestamps: s.log_timestamps,
        save_screenshots: s.save_screenshots,
        capture_mode: s.capture_mode,
    }
}

/// Text that trimming leaves as it is.
pub open spec fn is_trimmed(s: Seq<char>) -> bool {
    trim_seq(s) == s
}

/// An optional path that survives being shown and read back: unset, or set
/// to a non-empty trimmed text.
pub open spec fn is_clean_path(p: Option<Seq<char>>) -> bool {
    match p {
        Some(p) => p.len() > 0 && is_trimmed(p),
        None => true,
    }
}

impl SettingsState {
    /// The settings shown for `config`.
    pub fn from_config(config: &Config) -> (s: SettingsState)
        ensures
            s@ == settings_of(config@),
            s.window_name@ == config.window_name@,
            s.hotkey@ == config.hotkey@,
            s.capture_delay_ms == config.capture_delay_ms,
            s.log_level@ == config.log_level@,
            s.log_timestamps == config.log_timestamps,
            s.save_screenshots == config.save_screenshots,
            s.capture_mode == config.capture_mode,
            config.game_log_file_path matches Some(p) ==> s.game_log_file_path@ == p@,
            config.game_log_file_path is None ==> s.game_log_file_path@.len() == 0,
            config.prices_file_path matches Some(p) ==> s.prices_file_path@ == p@,
            config.prices_file_path is None ==> s.prices_file_path@.len() == 0,
            config.items_file_path matches Some(p) ==> s.items_file_path@ == p@,
            config.items_file_path is None ==> s.items_file_path@.len() == 0,
    {
        SettingsState {
            game_log_file_path: match &config.game_log_file_path {
                Some(p) => p.clone(),
                None => String::new(),
            },
            window_name: config.window_name.clone(),
            hotkey: config.hotkey.clone(),
            capture_delay_ms: config.capture_delay_ms,
            prices_file_path: match &config.prices_file_path {
                Some(p) => p.clone(),
                None => String::new(),
            },
            items_file_path: match &config.items_file_path {
                Some(p) => p.clone(),
                None => String::new(),
            },
            log_level: config.log_level.clone(),
            log_timestamps: config.log_timestamps,
            save_screenshots: config.save_screenshots,
            capture_mode: config.capture_mode,
        }
    }

    /// The configuration the settings stand for.
    pub fn to_config(&self) -> (c: Config)
        ensures
            c@ == config_of(self@),
            c.window_name@ == trim_seq(self.window_name@),
            c.hotkey@ == trim_seq(self.hotkey@),
            c.capture_delay_ms == self.capture_delay_ms,
            c.log_level@ == trim_seq(self.log_level@),
            c.log_timestamps == self.log_timestamps,
            c.save_screenshots == self.save_screenshots,
            c.capture_mode == self.capture_mode,
            opt_view(c.game_log_file_path) == parsed_path(self.game_log_file_path@),
            opt_view(c.prices_file_path) == parsed_path(self.prices_file_path@),
            opt_view(c.items_file_path) == parsed_path(self.items_file_path@),
    {
        Config {
            game_log_file_path: SettingsState::parse_optional_path(
                self.game_log_file_path.as_str(),
            ),
            window_name: trim_string(self.window_name.as_str()),
            hotkey: trim_string(self.hotkey.as_str()),
            capture_delay_ms: self.capture_delay_ms,
            prices_file_path: SettingsState::parse_optional_path(self.prices_file_path.as_str()),
            items_file_path: SettingsState::parse_optional_path(self.items_file_path.as_str()),
            log_level: trim_string(self.log_level.as_str()),
            log_timestamps: self.log_timestamps,
            save_screenshots: self.save_screenshots,
            capture_mode: self.capture_mode,
        }
    }

    /// Reads a path field: trimmed, `None` when blank.
    pub fn parse_optional_path(value: &str) -> (r: Option<String>)
        ensures
            opt_view(r) == parsed_path(value@),
    {
        let chars = chars_of(value);
        let trimmed = trim_chars(&chars);
        if trimmed.len() == 0 {
            None
        } else {
            Some(string_from_chars(&trimmed))
        }
    }
}

/// The result of `trim_end_seq` is a prefix of its argument.
proof fn lemma_trim_end_prefix(s: Seq<char>)
    ensures
        trim_end_seq(s).len() <= s.len(),
        trim_end_seq(s) == s.subrange(0, trim_end_seq(s).len() as int),
    decreases s.len(),
{
    if s.len() > 0 && is_whitespace(s.last()) {
        lemma_trim_end_prefix(s.drop_last());
        assert(s.drop_last().subrange(0, trim_end_seq(s).len() as int) =~= s.subrange(
            0,
            trim_end_seq(s).len() as int,
        ));
    } else {
        assert(s.subrange(0, s.len() as int) =~= s);
    }
}

proof fn lemma_trim_start_no_leading(s: Seq<char>)
    ensures
        trim_start_seq(s).len() == 0 || !is_whitespace(trim_start_seq(s)[0]),
    decreases s.len(),
{
    if s.len() > 0 && is_whitespace(s[0]) {
        lemma_trim_start_no_leading(s.drop_first());
    }
}

proof fn lemma_trim_end_no_trailing(s: Seq<char>)
    ensures
        trim_end_seq(s).len() == 0 || !is_whitespace(trim_end_seq(s).last()),
    decreases s.len(),
{
    if s.len() > 0 && is_whitespace(s.last()) {
        lemma_trim_end_no_trailing(s.drop_last());
    }
}

/// Trimming text that is already trimmed changes nothing.
pub proof fn lemma_trim_idempotent(s: Seq<char>)
    ensures
        trim_seq(trim_seq(s)) == trim_seq(s),
{
    let a = trim_start_seq(s);
    let t = trim_end_seq(a);
    lemma_trim_start_no_leading(s);
    lemma_trim_end_prefix(a);
    lemma_trim_end_no_trailing(a);
    if t.len() > 0 {
        assert(t[0] == a[0]);
    }
    assert(trim_start_seq(t) == t);
    assert(trim_end_seq(t) == t);
}

/// Showing a configuration in the settings window and saving it again gives
/// back the same configuration, provided its names and level are trimmed and
/// each path is either unset or a non-empty trimmed text.
pub proof fn law_settings_round_trip(c: ConfigView)
    requires
        is_trimmed(c.window_name),
        is_trimmed(c.hotkey),
        is_trimmed(c.log_level),
        is_clean_path(c.game_log_file_path),
        is_clean_path(c.prices_file_path),
        is_clean_path(c.items_file_path),
    ensures
        config_of(settings_of(c)) == c,
{
    let empty = Seq::<char>::empty();
    assert(trim_start_seq(empty) == empty);
    assert(trim_end_seq(empty) == empty);
    assert(trim_seq(empty) =~= empty);
}

/// Saving, showing the result and saving again gives what the first save
/// gave: reading the settings back is a normalisation.
pub proof fn law_settings_normalisation_idempotent(s: SettingsView)
    ensures
        config_of(settings_of(config_of(s))) == config_of(s),
{
    lemma_trim_idempotent(s.window_name);
    lemma_trim_idempotent(s.hotkey);
    lemma_trim_idempotent(s.log_level);
    lemma_trim_idempotent(s.game_log_file_path);
    lemma_trim_idempotent(s.prices_file_path);
    lemma_trim_idempotent(s.items_file_path);
    let empty = Seq::<char>::empty();
    assert(trim_start_seq(empty) == empty);
    assert(trim_end_seq(empty) == empty);
    assert(trim_seq(empty) =~= empty);
}

/// The flags, the delay and the capture mode are carried over unchanged both
/// ways: shown as they are configured and read back as they are edited.
pub proof fn law_settings_keep_flags(c: ConfigView, s: SettingsView)
    ensures
        settings_of(c).save_screenshots == c.save_screenshots,
        settings_of(c).log_timestamps == c.log_timestamps,
        settings_of(c).capture_delay_ms == c.capture_delay_ms,
        settings_of(c).capture_mode == c.capture_mode,
        config_of(s).save_screenshots == s.save_screenshots,
        config_of(s).log_timestamps == s.log_timestamps,
        config_of(s).capture_delay_ms == s.capture_delay_ms,
        config_of(s).capture_mode == s.capture_mode,
{
}

/// A path field holding only whitespace reads back as unset.
pub proof fn law_blank_path_is_unset(text: Seq<char>)
    requires
        forall|i: int| 0 <= i < text.len() ==> is_whitespace(#[trigger] text[i]),
    ensures
        parsed_path(text) is None,
    decreases text.len(),
{
    if text.len() > 0 {
        assert(forall|i: int|
            0 <= i < text.drop_first().len() ==> #[trigger] text.drop_first()[i] == text[i + 1]);
        law_blank_path_is_unset(text.drop_first());
    } else {
        assert(trim_start_seq(text) == text);
        assert(trim_end_seq(text) == text);
    }
}


/// Short label of a cache refresh state.
pub open spec fn state_label(state: CacheRefreshState) -> Seq<char> {
    match state {
        CacheRefreshState::Updated => "Updated"@,
        CacheRefreshState::NotModified => "Current"@,
        CacheRefreshState::Skipped => "Not refreshed"@,
        CacheRefreshState::Failed => "Failed"@,
    }
}

/// Computes `state_label`.
pub fn refresh_state_label(state: &CacheRefreshState) -> (r: &'static str)
    ensures
        r@ == state_label(*state),
{
    match state {
        CacheRefreshState::Updated => "Updated",
        CacheRefreshState::NotModified => "Current",
        CacheRefreshState::Skipped => "Not refreshed",
        CacheRefreshState::Failed => "Failed",
    }
}

/// How many of the two files of `result` are in `state`.
pub open spec fn count_in_state(result: DatabaseRefreshResult, state: CacheRefreshState) -> nat {
    (if result.prices.state == state {
        1nat
    } else {
        0nat
    }) + (if result.items.state == state {
        1nat
    } else {
        0nat
    })
}

/// One-line summary of a database refresh: failures first, then updates.
pub open spec fn refresh_summary(result: DatabaseRefreshResult) -> Seq<char> {
    let failed = count_in_state(result, CacheRefreshState::Failed);
    let updated = count_in_state(result, CacheRefreshState::Updated);
    if failed > 0 {
        "Refresh completed with "@ + decimal(failed) + " failed file(s)"@
    } else if updated > 0 {
        "Refresh complete: "@ + decimal(updated) + " file(s) updated"@
    } else {
        "Refresh complete: database already current"@
    }
}

/// Computes `refresh_summary`.
pub fn database_refresh_summary(result: &DatabaseRefreshResult) -> (r: String)
    ensures
        r@ == refresh_summary(*result),
{
    let mut failed: u64 = 0;
    let mut updated: u64 = 0;
    if result.prices.state == CacheRefreshState::Failed {
        failed = failed + 1;
    }
    if result.items.state == CacheRefreshState::Failed {
        failed = failed + 1;
    }
    if result.prices.state == CacheRefreshState::Updated {
        updated = updated + 1;
    }
    if result.items.state == CacheRefreshState::Updated {
        updated = updated + 1;
    }
    if failed > 0 {
        "Refresh completed with ".to_owned().concat(decimal_string(failed).as_str()).concat(
            " failed file(s)",
        )
    } else if updated > 0 {
        "Refresh complete: ".to_owned().concat(decimal_string(updated).as_str()).concat(
            " file(s) updated",
        )
    } else {
        "Refresh complete: database already current".to_owned()
    }
}

/// What the background database refresh reported when polled.
#[derive(Clone, Debug)]
pub enum RefreshPoll {
    /// The refresh finished with this outcome.
    Finished(DatabaseRefreshResult),
    /// The refresh failed with this message.
    Failed(String),
    /// Nothing has been reported yet.
    Pending,
    /// The worker stopped without reporting.
    WorkerStopped,
}

/// What the caller must do after a poll.
#[derive(Clone, Copy, Debug, PartialEq, Eq, Structural)]
pub enum PollOutcome {
    /// Keep waiting for the worker.
    Waiting,
    /// The refresh is over; stop listening to the worker.
    Done,
    /// The refresh is over; stop listening and re-read the cache status.
    DoneRescanCache,
}

/// The settings window: the settings being edited and the state of the
/// database cache panel.
#[derive(Clone, Debug)]
pub struct SettingsApp {
    pub state: SettingsState,
    pub status: Option<String>,
    pub config_path_hint: Option<String>,
    pub database_refresh_result: Option<DatabaseRefreshResult>,
    pub database_refresh_in_progress: bool,
}

impl SettingsApp {
    /// The window for a loaded configuration, its file's location when
    /// known, and the cache status read at start.
    pub fn with_config(
        config: &Config,
        config_path_hint: Option<String>,
        cache_status: Option<DatabaseRefreshResult>,
    ) -> (app: SettingsApp)
        ensures
            app.state@ == settings_of(config@),
            app.status is None,
            app.config_path_hint == config_path_hint,
            app.database_refresh_result == cache_status,
            !app.database_refresh_in_progress,
    {
        SettingsApp {
            state: SettingsState::from_config(config),
            status: None,
            config_path_hint,
            database_refresh_result: cache_status,
            database_refresh_in_progress: false,
        }
    }

    /// Marks a database refresh as started and gives the configuration to
    /// refresh with.
    pub fn begin_database_refresh(&mut self) -> (c: Config)
        ensures
            c@ == config_of(old(self).state@),
            final(self).database_refresh_in_progress,
            final(self).status matches Some(s) && s@ == "Refreshing database..."@,
            final(self).state == old(self).state,
            final(self).database_refresh_result == old(self).database_refresh_result,
            final(self).config_path_hint == old(self).config_path_hint,
    {
        let config = self.state.to_config();
        self.database_refresh_in_progress = true;
        self.status = Some("Refreshing database...".to_owned());
        config
    }

    /// First step of saving the settings: the configuration to save when it
    /// passes validation; otherwise `None`, with the refusal as the status.
    pub fn begin_save(&mut self) -> (r: Option<Config>)
        ensures
            final(self).state == old(self).state,
            final(self).config_path_hint == old(self).config_path_hint,
            final(self).database_refresh_result == old(self).database_refresh_result,
            final(self).database_refresh_in_progress == old(self).database_refresh_in_progress,
            match validation_failure(config_of(old(self).state@)) {
                None => {
                    &&& r matches Some(c) && c@ == config_of(old(self).state@)
                    &&& final(self).status == old(self).status
                },
                Some(m) => {
                    &&& r is None
                    &&& final(self).status matches Some(s) && s@ == "Validation failed: "@ + m
                },
            },
    {
        let config = self.state.to_config();
        match config.validate() {
            Ok(()) => Some(config),
            Err(err) => {
                self.status = Some("Validation failed: ".to_owned().concat(err.message().as_str()));
                None
            },
        }
    }

    /// Last step of saving the settings, given what saving reported: the
    /// configuration file's location (`None` when unknown) or the failure's
    /// message.
    pub fn finish_save(&mut self, saved: Result<Option<String>, String>)
        ensures
            final(self).state == old(self).state,
            final(self).config_path_hint == old(self).config_path_hint,
            final(self).database_refresh_result == old(self).database_refresh_result,
            final(self).database_refresh_in_progress == old(self).database_refresh_in_progress,
            final(self).status matches Some(s) && s@ == match saved {
                Ok(Some(path)) => "Saved to "@ + path@,
                Ok(None) => "Saved to unknown location"@,
                Err(err) => "Save failed: "@ + err@,
            },
    {
        let status = match &saved {
            Ok(Some(path)) => "Saved to ".to_owned().concat(path.as_str()),
            Ok(None) => "Saved to unknown location".to_owned(),
            Err(err) => "Save failed: ".to_owned().concat(err.as_str()),
        };
        self.status = Some(status);
    }

    /// Takes in what the background refresh reported: a finished refresh
    /// is summarised and kept; a failure or a stopped worker is reported and
    /// asks for the cache status to be re-read; nothing reported changes
    /// nothing.
    pub fn poll_database_refresh(&mut self, poll: RefreshPoll) -> (r: PollOutcome)
        ensures
            final(self).state == old(self).state,
            final(self).config_path_hint == old(self).config_path_hint,
            match poll {
                RefreshPoll::Finished(result) => {
                    &&& r == PollOutcome::Done
                    &&& final(self).status matches Some(s) && s@ == refresh_summary(result)
                    &&& final(self).database_refresh_result == Some(result)
                    &&& !final(self).database_refresh_in_progress
                },
                RefreshPoll::Failed(err) => {
                    &&& r == PollOutcome::DoneRescanCache
                    &&& final(self).status matches Some(s) && s@ == "Refresh failed: "@ + err@
                    &&& final(self).database_refresh_result == old(self).database_refresh_result
                    &&& !final(self).database_refresh_in_progress
                },
                RefreshPoll::Pending => {
                    &&& r == PollOutcome::Waiting
                    &&& final(self).status == old(self).status
                    &&& final(self).database_refresh_result == old(self).database_refresh_result
                    &&& final(self).database_refresh_in_progress == old(
                        self,
                    ).database_refresh_in_progress
                },
                RefreshPoll::WorkerStopped => {
                    &&& r == PollOutcome::DoneRescanCache
                    &&& final(self).status matches Some(s) && s@
                        == "Refresh failed: worker stopped before reporting"@
                    &&& final(self).database_refresh_result == old(self).database_refresh_result
                    &&& !final(self).database_refresh_in_progress
                },
            },
    {
        match poll {
            RefreshPoll::Finished(result) => {
                self.status = Some(database_refresh_summary(&result));
                self.database_refresh_result = Some(result);
                self.database_refresh_in_progress = false;
                PollOutcome::Done
            },
            RefreshPoll::Failed(err) => {
                self.status = Some("Refresh failed: ".to_owned().concat(err.as_str()));
                self.database_refresh_in_progress = false;
                PollOutcome::DoneRescanCache
            },
            RefreshPoll::Pending => PollOutcome::Waiting,
            RefreshPoll::WorkerStopped => {
                self.status = Some("Refresh failed: worker stopped before reporting".to_owned());
                self.database_refresh_in_progress = false;
                PollOutcome::DoneRescanCache
            },
        }
    }
}

} // verus!
