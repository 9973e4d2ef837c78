//! Configuration of the program and its command-line overrides.
//!
//! File system paths are held as text; joining follows the rules of
//! `Path::join` on Unix.

use vstd::prelude::*;
use vstd::string::StringExecFns;

use crate::text::chars_of;

verus! {

/// Where screenshots are taken from.
#[derive(Debug, Clone, Copy, PartialEq, Eq, Structural)]
pub enum CaptureMode {
    /// The game window, found by its title.
    Window,
    /// The primary monitor.
    Monitor,
}

/// Configuration of the program.
#[derive(Debug, Clone)]
pub struct Config {
    /// Path to the game's `EE.log`.
    pub game_log_file_path: Option<String>,
    /// Title of the game window.
    pub window_name: String,
    /// Hotkey for manual detection.
    pub hotkey: String,
    /// Delay in milliseconds after detection before capturing the screen.
    pub capture_delay_ms: u64,
    /// Path to the price list file.
    pub prices_file_path: Option<String>,
    /// Path to the filtered item data file.
    pub items_file_path: Option<String>,
    /// Log level (error, warn, info, debug, trace, off).
    pub log_level: String,
    /// Whether log lines carry timestamps.
    pub log_timestamps: bool,
    /// Whether screenshots are kept together with their labels.
    pub save_screenshots: bool,
    /// Where screenshots are taken from.
    pub capture_mode: CaptureMode,
}

/// Mathematical view of a `Config`.
pub struct ConfigView {
    pub game_log_file_path: Option<Seq<char>>,
    pub window_name: Seq<char>,
    pub hotkey: Seq<char>,
    pub capture_delay_ms: u64,
    pub prices_file_path: Option<Seq<char>>,
    pub items_file_path: Option<Seq<char>>,
    pub log_level: Seq<char>,
    pub log_timestamps: bool,
    pub save_screenshots: bool,
    pub capture_mode: CaptureMode,
}

/// The view of an optional string.
pub open spec fn opt_view(s: Option<String>) -> Option<Seq<char>> {
    match s {
        Some(s) => Some(s@),
        None => None,
    }
}

impl View for Config {
    type V = ConfigView;

    open spec fn view(&self) -> ConfigView {
        ConfigView {
            game_log_file_path: opt_view(self.game_log_file_path),
            window_name: self.window_name@,
            hotkey: self.hotkey@,
            capture_delay_ms: self.capture_delay_ms,
            prices_file_path: opt_view(self.prices_file_path),
            items_file_path: opt_view(self.items_file_path),
            log_level: self.log_level@,
            log_timestamps: self.log_timestamps,
            save_screenshots: self.save_screenshots,
            capture_mode: self.capture_mode,
        }
    }
}

/// Command-line overrides of the configuration.
#[derive(Debug, Clone)]
pub struct Args {
    pub game_log_file_path: Option<String>,
    pub window_name: Option<String>,
    pub hotkey: Option<String>,
    pub capture_delay_ms: Option<u64>,
    pub log_level: Option<String>,
    pub log_timestamps: Option<bool>,
    /// Path to the configuration file.
    pub config_file: Option<String>,
}

/// `base` joined with `rest`, as `Path::join` does on Unix: an absolute
/// `rest` replaces `base`; otherwise a separator is put between them unless
/// `base` is empty or already ends in one.
pub open spec fn path_join(base: Seq<char>, rest: Seq<char>) -> Seq<char> {
    if rest.len() > 0 && rest[0] == '/' {
        rest
    } else if base.len() == 0 || base.last() == '/' {
        base + rest
    } else {
        base + seq!['/'] + rest
    }
}

/// Joins two paths (see `path_join`).
pub fn join_path(base: &str, rest: &str) -> (r: String)
    ensures
        r@ == path_join(base@, rest@),
{
    let b = chars_of(base);
    let t = chars_of(rest);
    if t.len() > 0 && t[0] == '/' {
        rest.to_owned()
    } else if b.len() == 0 || b[b.len() - 1] == '/' {
        base.to_owned().concat(rest)
    } else {
        let with_sep = base.to_owned().concat("/");
        proof {
            reveal_strlit("/");
        }
        assert(with_sep@ =~= base@ + seq!['/']);
        with_sep.concat(rest)
    }
}

/// Location of the game log below the home directory.
pub open spec fn game_log_below_home() -> Seq<char> {
    ".local/share/Steam/steamapps/compatdata/230410/pfx/drive_c/users/steamuser/AppData/Local/Warframe/EE.log"@
}

/// The default configuration for the given home directory.
pub open spec fn default_config(home: Option<Seq<char>>) -> ConfigView {
    ConfigView {
        game_log_file_path: match home {
            Some(h) => Some(path_join(h, game_log_below_home())),
            None => None,
        },
        window_name: "Warframe"@,
        hotkey: "F12"@,
        capture_delay_ms: 1500,
        prices_file_path: None,
        items_file_path: None,
        log_level: "info"@,
        log_timestamps: false,
        save_screenshots: false,
        capture_mode: CaptureMode::Window,
    }
}

/// `dirs::home_dir`: the user's home directory, as text. It depends on the
/// environment, so nothing is stated of it.
/// Paths are held as text here: a directory whose name is not UTF-8 is
/// treated as unknown (`None`).
#[verifier::external_body]
fn home_dir() -> Option<String> {
    dirs::home_dir().and_then(|path| path.into_os_string().into_string().ok())
}

/// `dirs::config_dir`: the user's configuration directory, as text. It
/// depends on the environment, so nothing is stated of it.
/// Paths are held as text here: a directory whose name is not UTF-8 is
/// treated as unknown (`None`).
#[verifier::external_body]
fn config_dir() -> Option<String> {
    dirs::config_dir().and_then(|path| path.into_os_string().into_string().ok())
}

/// Names a log level accepted by the configuration.
pub open spec fn is_log_level(level: Seq<char>) -> bool {
    ||| level == "error"@
    ||| level == "warn"@
    ||| level == "info"@
    ||| level == "debug"@
    ||| level == "trace"@
    ||| level == "off"@
}

/// What `global_hotkey` says of a hotkey text: `None` when it parses as a
/// hotkey, else the text of the parse error.
pub uninterp spec fn hotkey_rejection(hotkey: Seq<char>) -> Option<Seq<char>>;

/// Parses the text as a `global_hotkey` hotkey (`HotKey::from_str`):
/// `None` when the text parses, otherwise the error's message.
#[verifier::external_body]
fn check_hotkey(hotkey: &str) -> (r: Option<String>)
    ensures
        opt_view(r) == hotkey_rejection(hotkey@),
{
    match hotkey.parse::<global_hotkey::hotkey::HotKey>() {
        Ok(_) => None,
        Err(err) => Some(err.to_string()),
    }
}

/// Why a configuration was refused.
#[derive(Debug, Clone)]
pub enum ConfigError {
    /// The hotkey does not parse; the hotkey and the parser's reason.
    InvalidHotkey(String, String),
    /// The log level is not one of the accepted names.
    InvalidLogLevel(String),
    /// No configuration directory is known.
    NoConfigDirectory,
}

/// The message reported for a refused configuration.
pub open spec fn config_error_message(e: ConfigError) -> Seq<char> {
    match e {
        ConfigError::InvalidHotkey(hotkey, reason) => "Invalid hotkey '"@ + hotkey@ + "': "@
            + reason@,
        ConfigError::InvalidLogLevel(level) => "Invalid log level: "@ + level@,
        ConfigError::NoConfigDirectory => "Could not determine config directory"@,
    }
}

/// Why `validate` refuses a configuration, or `None` when it accepts it.
pub open spec fn validation_failure(c: ConfigView) -> Option<Seq<char>> {
    match hotkey_rejection(c.hotkey) {
        Some(reason) => Some("Invalid hotkey '"@ + c.hotkey + "': "@ + reason),
        None => if is_log_level(c.log_level) {
            None
        } else {
            Some("Invalid log level: "@ + c.log_level)
        },
    }
}

impl ConfigError {
    /// The message reported for this error (see `config_error_message`).
    pub fn message(&self) -> (r: String)
        ensures
            r@ == config_error_message(*self),
    {
        match self {
            ConfigError::InvalidHotkey(hotkey, reason) => "Invalid hotkey '".to_owned().concat(
                hotkey.as_str(),
            ).concat("': ").concat(reason.as_str()),
            ConfigError::InvalidLogLevel(level) => "Invalid log level: ".to_owned().concat(
                level.as_str(),
            ),
            ConfigError::NoConfigDirectory => "Could not determine config directory".to_owned(),
        }
    }
}

impl Config {
    /// The default configuration for the given home directory.
    pub fn with_home(home: Option<String>) -> (c: Config)
        ensures
            c@ == default_config(opt_view(home)),
    {
        let game_log_file_path = match home {
            Some(h) => Some(
                join_path(
                    h.as_str(),
                    ".local/share/Steam/steamapps/compatdata/230410/pfx/drive_c/users/steamuser/AppData/Local/Warframe/EE.log",
                ),
            ),
            None => None,
        };
        Config {
            game_log_file_path,
            window_name: "Warframe".to_owned(),
            hotkey: "F12".to_owned(),
            capture_delay_ms: 1500,
            prices_file_path: None,
            items_file_path: None,
            log_level: "info".to_owned(),
            log_timestamps: false,
            save_screenshots: false,
            capture_mode: CaptureMode::Window,
        }
    }

    /// Path of the configuration file below the given configuration
    /// directory: `<dir>/wfinfo-ng/config.yaml`.
    pub fn config_file_path_in(dir: &str) -> (r: String)
        ensures
            r@ == path_join(path_join(dir@, "wfinfo-ng"@), "config.yaml"@),
    {
        let app_dir = join_path(dir, "wfinfo-ng");
        join_path(app_dir.as_str(), "config.yaml")
    }

    /// Path of the configuration file given the user's configuration
    /// directory; `NoConfigDirectory` exactly when that directory is unknown.
    pub fn config_file_path_from(dir: Option<String>) -> (r: Result<String, ConfigError>)
        ensures
            match dir {
                Some(d) => r matches Ok(p) && p@ == path_join(
                    path_join(d@, "wfinfo-ng"@),
                    "config.yaml"@,
                ),
                None => r matches Err(e) && e is NoConfigDirectory,
            },
    {
        match dir {
            Some(d) => Ok(Config::config_file_path_in(d.as_str())),
            None => Err(ConfigError::NoConfigDirectory),
        }
    }

    /// Path of the configuration file in the user's configuration
    /// directory (see `config_file_path_from`); `NoConfigDirectory` when that
    /// directory is unknown.
    pub fn get_config_file_path() -> (r: Result<String, ConfigError>)
        ensures
            r matches Err(e) ==> e is NoConfigDirectory,
            r matches Ok(p) ==> exists|dir: Seq<char>|
                p@ == path_join(path_join(dir, "wfinfo-ng"@), "config.yaml"@),
    {
        Config::config_file_path_from(config_dir())
    }

    /// Applies the command-line overrides: each option that is given
    /// replaces the configured value, the others are kept.
    pub fn update_from_args(&mut self, args: &Args)
        ensures
            final(self)@ == updated_config(old(self)@, *args),
            final(self)@.game_log_file_path == match args.game_log_file_path {
                Some(p) => Some(p@),
                None => old(self)@.game_log_file_path,
            },
            final(self)@.window_name == match args.window_name {
                Some(n) => n@,
                None => old(self)@.window_name,
            },
            final(self)@.hotkey == match args.hotkey {
                Some(h) => h@,
                None => old(self)@.hotkey,
            },
            final(self).capture_delay_ms == match args.capture_delay_ms {
                Some(d) => d,
                None => old(self).capture_delay_ms,
            },
            final(self)@.log_level == match args.log_level {
                Some(l) => l@,
                None => old(self)@.log_level,
            },
            final(self).log_timestamps == match args.log_timestamps {
                Some(t) => t,
                None => old(self).log_timestamps,
            },
            final(self)@.prices_file_path == old(self)@.prices_file_path,
            final(self)@.items_file_path == old(self)@.items_file_path,
            final(self).save_screenshots == old(self).save_screenshots,
            final(self).capture_mode == old(self).capture_mode,
    {
        if let Some(path) = &args.game_log_file_path {
            self.game_log_file_path = Some(path.clone());
        }
        if let Some(name) = &args.window_name {
            self.window_name = name.clone();
        }
        if let Some(hotkey) = &args.hotkey {
            self.hotkey = hotkey.clone();
        }
        if let Some(delay) = args.capture_delay_ms {
            self.capture_delay_ms = delay;
        }
        if let Some(level) = &args.log_level {
            self.log_level = level.clone();
        }
        if let Some(timestamps) = args.log_timestamps {
            self.log_timestamps = timestamps;
        }
    }

    /// Checks the hotkey and the log level: `InvalidHotkey` when the hotkey
    /// does not parse, else `InvalidLogLevel` when the level is not one of
    /// error, warn, info, debug, trace, off.
    pub fn validate(&self) -> (r: Result<(), ConfigError>)
        ensures
            match r {
                Ok(()) => hotkey_rejection(self.hotkey@) is None && is_log_level(self.log_level@),
                Err(ConfigError::InvalidHotkey(hotkey, reason)) => {
                    &&& hotkey@ == self.hotkey@
                    &&& hotkey_rejection(self.hotkey@) == Some(reason@)
                },
                Err(ConfigError::InvalidLogLevel(level)) => {
                    &&& hotkey_rejection(self.hotkey@) is None
                    &&& !is_log_level(self.log_level@)
                    &&& level@ == self.log_level@
                },
                Err(ConfigError::NoConfigDirectory) => false,
            },
            match r {
                Ok(()) => validation_failure(self@) is None,
                Err(e) => validation_failure(self@) == Some(config_error_message(e)),
            },
    {
        if let Some(reason) = check_hotkey(self.hotkey.as_str()) {
            return Err(ConfigError::InvalidHotkey(self.hotkey.clone(), reason));
        }
        let level = &self.log_level;
        if *level == "error".to_owned() || *level == "warn".to_owned() || *level == "info".to_owned()
            || *level == "debug".to_owned() || *level == "trace".to_owned() || *level
            == "off".to_owned() {
            Ok(())
        } else {
            Err(ConfigError::InvalidLogLevel(level.clone()))
        }
    }
}

/// The configuration after the overrides of `args`.
pub open spec fn updated_config(c: ConfigView, args: Args) -> ConfigView {
    ConfigView {
        game_log_file_path: match args.game_log_file_path {
            Some(p) => Some(p@),
            None => c.game_log_file_path,
        },
        window_name: match args.window_name {
            Some(n) => n@,
            None => c.window_name,
        },
        hotkey: match args.hotkey {
            Some(h) => h@,
            None => c.hotkey,
        },
        capture_delay_ms: match args.capture_delay_ms {
            Some(d) => d,
            None => c.capture_delay_ms,
        },
        log_level: match args.log_level {
            Some(l) => l@,
            None => c.log_level,
        },
        log_timestamps: match args.log_timestamps {
            Some(t) => t,
            None => c.log_timestamps,
        },
        ..c
    }
}

impl Default for Config {
    /// The default configuration, with the game log below the user's home
    /// directory when that is known.
    fn default() -> (c: Config)
        ensures
            exists|home: Option<Seq<char>>| c@ == default_config(home),
    {
        let home = home_dir();
        Config::with_home(home)
    }
}


/// Overrides that give no option leave the configuration as it is.
pub proof fn law_no_overrides_change_nothing(c: ConfigView, args: Args)
    requires
        args.game_log_file_path is None,
        args.window_name is None,
        args.hotkey is None,
        args.capture_delay_ms is None,
        args.log_level is None,
        args.log_timestamps is None,
    ensures
        updated_config(c, args) == c,
{
}

/// Applying the same overrides twice gives what applying them once gives.
pub proof fn law_overrides_idempotent(c: ConfigView, args: Args)
    ensures
        updated_config(updated_config(c, args), args) == updated_config(c, args),
{
}

/// Each option given on the command line replaces its own field, whatever
/// the other options are; each option left out keeps its field; the fields
/// that have no option are never touched.
pub proof fn law_each_override_replaces_its_field(c: ConfigView, args: Args)
    ensures
        args.game_log_file_path matches Some(p) ==> updated_config(c, args).game_log_file_path
            == Some(p@),
        args.game_log_file_path is None ==> updated_config(c, args).game_log_file_path
            == c.game_log_file_path,
        args.window_name matches Some(n) ==> updated_config(c, args).window_name == n@,
        args.window_name is None ==> updated_config(c, args).window_name == c.window_name,
        args.hotkey matches Some(h) ==> updated_config(c, args).hotkey == h@,
        args.hotkey is None ==> updated_config(c, args).hotkey == c.hotkey,
        args.capture_delay_ms matches Some(d) ==> updated_config(c, args).capture_delay_ms == d,
        args.capture_delay_ms is None ==> updated_config(c, args).capture_delay_ms
            == c.capture_delay_ms,
        args.log_level matches Some(l) ==> updated_config(c, args).log_level == l@,
        args.log_level is None ==> updated_config(c, args).log_level == c.log_level,
        args.log_timestamps matches Some(t) ==> updated_config(c, args).log_timestamps == t,
        args.log_timestamps is None ==> updated_config(c, args).log_timestamps
            == c.log_timestamps,
        updated_config(c, args).prices_file_path == c.prices_file_path,
        updated_config(c, args).items_file_path == c.items_file_path,
        updated_config(c, args).save_screenshots == c.save_screenshots,
        updated_config(c, args).capture_mode == c.capture_mode,
{
}

} // verus!
