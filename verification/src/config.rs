//! Application configuration.
//!
//! The configuration is plain data with a validity predicate. Reading and
//! writing it as a JSON file is the surrounding program's business; the
//! library owns the defaults, the validation rule and the derived values
//! the pipeline consumes.

use vstd::prelude::*;

verus! {

/// Why a configuration was rejected.
#[derive(Debug)]
pub enum ConfigError {
    /// A field or a combination of fields is out of range.
    ValidationError(String),
}

impl ConfigError {
    /// A short description of the failure.
    pub fn message(&self) -> (r: &'static str)
        ensures
            r@.len() > 0,
    {
        proof {
            reveal_strlit("configuration validation failed");
        }
        "configuration validation failed"
    }
}

/// Countdown settings.
#[derive(Debug, Clone)]
pub struct TimerConfig {
    /// The default countdown, in seconds.
    pub default_countdown: u64,
    /// The shortest allowed countdown, in seconds.
    pub min_countdown: u64,
    /// The longest allowed countdown, in seconds.
    pub max_countdown: u64,
    /// Whether to warn as the countdown nears its end.
    pub enable_warnings: bool,
    /// Remaining seconds under which warnings begin.
    pub warning_threshold: u64,
}

/// Security settings.
#[derive(Debug, Clone)]
pub struct SecurityConfig {
    /// Whether to pin sensitive buffers so they cannot be swapped out.
    pub enable_memory_locking: bool,
    /// How many overwrite passes an erasure makes.
    pub memory_erase_rounds: u32,
    /// Whether to clear the clipboard when the program exits.
    pub auto_clear_on_exit: bool,
    /// Whether to rotate the key on a schedule.
    pub enable_key_rotation: bool,
    /// Minutes between scheduled key rotations.
    pub key_rotation_interval: u64,
    /// Whether a paste destroys the content at once.
    pub destroy_on_paste: bool,
}

/// Presentation settings.
#[derive(Debug, Clone)]
pub struct UiConfig {
    /// Whether to print verbose output.
    pub verbose_output: bool,
    /// Whether to draw a progress bar.
    pub show_progress: bool,
    /// Whether to colour the output.
    pub enable_colors: bool,
    /// The log level name.
    pub log_level: String,
    /// Whether to show a tray icon.
    pub enable_tray_icon: bool,
}

/// Global-hotkey settings.
#[derive(Debug, Clone)]
pub struct HotkeyConfig {
    /// Whether global hotkeys are registered at all.
    pub enable_global_hotkeys: bool,
    /// The emergency-nuke combination.
    pub emergency_nuke_key: String,
    /// The show-status combination.
    pub show_status_key: String,
    /// The pause-or-resume combination.
    pub toggle_monitoring_key: String,
}

/// Clipboard-monitor settings.
#[derive(Debug, Clone)]
pub struct ClipboardConfig {
    /// Milliseconds between clipboard polls.
    pub poll_interval_ms: u64,
    /// The content types the monitor handles.
    pub supported_types: Vec<String>,
    /// The longest content accepted, in bytes.
    pub max_content_length: usize,
    /// Whether the length limit is enforced.
    pub enable_length_limit: bool,
}

/// The whole configuration.
#[derive(Debug, Clone)]
pub struct Config {
    /// The configuration format version.
    pub version: String,
    /// Seconds between sealing content and destroying it.
    pub clear_delay_seconds: u64,
    /// The pattern that classifies content as sensitive.
    pub sensitive_pattern: String,
    /// Countdown settings.
    pub timer: TimerConfig,
    /// Security settings.
    pub security: SecurityConfig,
    /// Presentation settings.
    pub ui: UiConfig,
    /// Global-hotkey settings.
    pub hotkeys: HotkeyConfig,
    /// Clipboard-monitor settings.
    pub clipboard: ClipboardConfig,
}

/// Whether a log level name is one the logger knows.
pub open spec fn valid_log_level(level: Seq<char>) -> bool {
    level == "error"@ || level == "warn"@ || level == "info"@ || level == "debug"@ || level
        == "trace"@
}

/// What a valid configuration satisfies: countdown bounds are ordered and
/// contain the default, warnings start within the countdown, erasure makes
/// at least one pass, polling has a positive period, and the log level is
/// known.
pub open spec fn spec_valid(c: Config) -> bool {
    &&& c.timer.min_countdown <= c.timer.max_countdown
    &&& c.timer.min_countdown <= c.timer.default_countdown
    &&& c.timer.default_countdown <= c.timer.max_countdown
    &&& c.timer.warning_threshold <= c.timer.default_countdown
    &&& c.security.memory_erase_rounds > 0
    &&& c.clipboard.poll_interval_ms > 0
    &&& valid_log_level(c.ui.log_level@)
}

/// Whether a configuration holds exactly the default values.
pub open spec fn is_default(c: Config) -> bool {
    &&& c.version@ == "0.1.0"@
    &&& c.clear_delay_seconds == 30
    &&& c.sensitive_pattern@ == ".+"@
    &&& c.timer.default_countdown == 30
    &&& c.timer.min_countdown == 5
    &&& c.timer.max_countdown == 3600
    &&& c.timer.enable_warnings
    &&& c.timer.warning_threshold == 10
    &&& c.security.enable_memory_locking
    &&& c.security.memory_erase_rounds == 3
    &&& c.security.auto_clear_on_exit
    &&& !c.security.enable_key_rotation
    &&& c.security.key_rotation_interval == 60
    &&& c.security.destroy_on_paste
    &&& !c.ui.verbose_output
    &&& c.ui.show_progress
    &&& c.ui.enable_colors
    &&& c.ui.log_level@ == "info"@
    &&& c.ui.enable_tray_icon
    &&& c.hotkeys.enable_global_hotkeys
    &&& c.hotkeys.emergency_nuke_key@ == "Ctrl+Alt+V"@
    &&& c.hotkeys.show_status_key@ == "Ctrl+Alt+S"@
    &&& c.hotkeys.toggle_monitoring_key@ == "Ctrl+Alt+M"@
    &&& c.clipboard.poll_interval_ms == 100
    &&& c.clipboard.supported_types@.len() == 1
    &&& c.clipboard.supported_types@[0]@ == "text"@
    &&& c.clipboard.max_content_length == 1048576
    &&& c.clipboard.enable_length_limit
}

impl Default for TimerConfig {
    /// A 30-second countdown, bounded between 5 seconds and an hour, with
    /// warnings over the last 10 seconds.
    fn default() -> (r: TimerConfig)
        ensures
            r.default_countdown == 30,
            r.min_countdown == 5,
            r.max_countdown == 3600,
            r.enable_warnings,
            r.warning_threshold == 10,
    {
        TimerConfig {
            default_countdown: 30,
            min_countdown: 5,
            max_countdown: 3600,
            enable_warnings: true,
            warning_threshold: 10,
        }
    }
}

impl Default for SecurityConfig {
    /// Memory locking on, three erasure passes, clear on exit, no scheduled
    /// rotation, destroy on paste.
    fn default() -> (r: SecurityConfig)
        ensures
            r.enable_memory_locking,
            r.memory_erase_rounds == 3,
            r.auto_clear_on_exit,
            !r.enable_key_rotation,
            r.key_rotation_interval == 60,
            r.destroy_on_paste,
    {
        SecurityConfig {
            enable_memory_locking: true,
            memory_erase_rounds: 3,
            auto_clear_on_exit: true,
            enable_key_rotation: false,
            key_rotation_interval: 60,
            destroy_on_paste: true,
        }
    }
}

impl Default for UiConfig {
    /// Quiet output with progress, colours, the `info` log level and a tray
    /// icon.
    fn default() -> (r: UiConfig)
        ensures
            !r.verbose_output,
            r.show_progress,
            r.enable_colors,
            r.log_level@ == "info"@,
            r.enable_tray_icon,
    {
        UiConfig {
            verbose_output: false,
            show_progress: true,
            enable_colors: true,
            log_level: "info".to_owned(),
            enable_tray_icon: true,
        }
    }
}

impl Default for HotkeyConfig {
    /// Global hotkeys on, with the standard combinations.
    fn default() -> (r: HotkeyConfig)
        ensures
            r.enable_global_hotkeys,
            r.emergency_nuke_key@ == "Ctrl+Alt+V"@,
            r.show_status_key@ == "Ctrl+Alt+S"@,
            r.toggle_monitoring_key@ == "Ctrl+Alt+M"@,
    {
        HotkeyConfig {
            enable_global_hotkeys: true,
            emergency_nuke_key: "Ctrl+Alt+V".to_owned(),
            show_status_key: "Ctrl+Alt+S".to_owned(),
            toggle_monitoring_key: "Ctrl+Alt+M".to_owned(),
        }
    }
}

impl Default for ClipboardConfig {
    /// A 100-millisecond poll over text content up to one megabyte.
    fn default() -> (r: ClipboardConfig)
        ensures
            r.poll_interval_ms == 100,
            r.supported_types@.len() == 1,
            r.supported_types@[0]@ == "text"@,
            r.max_content_length == 1048576,
            r.enable_length_limit,
    {
        let mut supported_types: Vec<String> = Vec::new();
        supported_types.push("text".to_owned());
        ClipboardConfig {
            poll_interval_ms: 100,
            supported_types,
            max_content_length: 1048576,
            enable_length_limit: true,
        }
    }
}

impl Default for Config {
    /// The default configuration; it is valid.
    fn default() -> (r: Config)
        ensures
            is_default(r),
            spec_valid(r),
    {
        Config {
            version: "0.1.0".to_owned(),
            clear_delay_seconds: 30,
            sensitive_pattern: ".+".to_owned(),
            timer: TimerConfig::default(),
            security: SecurityConfig::default(),
            ui: UiConfig::default(),
            hotkeys: HotkeyConfig::default(),
            clipboard: ClipboardConfig::default(),
        }
    }
}

impl Config {
    /// Check the configuration; accepts exactly the configurations
    /// `spec_valid` describes.
    pub fn validate(&self) -> (r: Result<(), ConfigError>)
        ensures
            r is Ok <==> spec_valid(*self),
            r is Err ==> r->Err_0 is ValidationError,
    {
        if self.timer.min_countdown > self.timer.max_countdown {
            return Err(
                ConfigError::ValidationError(
                    "the minimum countdown exceeds the maximum".to_owned(),
                ),
            );
        }
        if self.timer.default_countdown < self.timer.min_countdown
            || self.timer.default_countdown > self.timer.max_countdown {
            return Err(
                ConfigError::ValidationError(
                    "the default countdown is outside the allowed range".to_owned(),
                ),
            );
        }
        if self.timer.warning_threshold > self.timer.default_countdown {
            return Err(
                ConfigError::ValidationError(
                    "the warning threshold exceeds the default countdown".to_owned(),
                ),
            );
        }
        if self.security.memory_erase_rounds == 0 {
            return Err(
                ConfigError::ValidationError(
                    "memory erasure must make at least one pass".to_owned(),
                ),
            );
        }
        if self.clipboard.poll_interval_ms == 0 {
            return Err(
                ConfigError::ValidationError("the poll interval must be positive".to_owned()),
            );
        }
        let known_level = self.ui.log_level == "error".to_owned() || self.ui.log_level
            == "warn".to_owned() || self.ui.log_level == "info".to_owned() || self.ui.log_level
            == "debug".to_owned() || self.ui.log_level == "trace".to_owned();
        if !known_level {
            return Err(ConfigError::ValidationError("unknown log level".to_owned()));
        }
        Ok(())
    }

    /// Put the configuration back to its defaults.
    pub fn reset_to_default(&mut self) -> (r: Result<(), ConfigError>)
        ensures
            r is Ok,
            is_default(*final(self)),
            spec_valid(*final(self)),
    {
        *self = Config::default();
        Ok(())
    }

    /// The default countdown, in seconds.
    pub fn get_default_countdown_duration(&self) -> (r: u64)
        ensures
            r == self.timer.default_countdown,
    {
        self.timer.default_countdown
    }

    /// The poll interval, in milliseconds.
    pub fn get_poll_interval(&self) -> (r: u64)
        ensures
            r == self.clipboard.poll_interval_ms,
    {
        self.clipboard.poll_interval_ms
    }

    /// Whether memory locking is on.
    pub fn is_memory_locking_enabled(&self) -> (r: bool)
        ensures
            r == self.security.enable_memory_locking,
    {
        self.security.enable_memory_locking
    }

    /// How many overwrite passes an erasure makes.
    pub fn get_memory_erase_rounds(&self) -> (r: u32)
        ensures
            r == self.security.memory_erase_rounds,
    {
        self.security.memory_erase_rounds
    }
}

} // verus!
