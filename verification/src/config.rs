//! Configuration: how the user is notified, and with which sound.

use crate::path::{join, joined};
use vstd::prelude::*;
use vstd::string::*;

verus! {

/// The sound that is played unless another is configured.
pub const DEFAULT_SOUND: &'static str = "Funk";

/// Where the configuration is looked for when the home directory is unknown.
pub const FALLBACK_HOME: &'static str = "/tmp";

/// What `NotificationMode::from_str` says of a name it does not know, before
/// the name.
pub const INVALID_MODE: &'static str = "invalid notification mode: ";

/// How the user is notified.
#[derive(Debug, Clone, Copy, PartialEq, Eq, Structural)]
pub enum NotificationMode {
    /// By a banner of the notification service.
    Notification,
    /// By a modal dialog with an audio cue.
    Dialog,
    /// By both.
    Both,
}

/// The name of `mode` in configuration files and on the command line.
pub open spec fn mode_name(mode: NotificationMode) -> Seq<char> {
    match mode {
        NotificationMode::Notification => "notification"@,
        NotificationMode::Dialog => "dialog"@,
        NotificationMode::Both => "both"@,
    }
}

/// The mode that goes by `name`, if there is one.
pub open spec fn mode_named(name: Seq<char>) -> Option<NotificationMode> {
    if name == "notification"@ {
        Some(NotificationMode::Notification)
    } else if name == "dialog"@ {
        Some(NotificationMode::Dialog)
    } else if name == "both"@ {
        Some(NotificationMode::Both)
    } else {
        None
    }
}

/// The lowercase equivalent of a text, as Unicode defines it.
pub uninterp spec fn lowercase(text: Seq<char>) -> Seq<char>;

/// `str::to_lowercase` of the standard library: the result is the lowercase
/// equivalent of `text`, which depends on `text` alone. Nothing else is
/// claimed of it.
#[verifier::external_body]
fn to_lowercase(text: &str) -> (lower: String)
    ensures
        lower@ == lowercase(text@),
{
    text.to_lowercase()
}

/// Whether two texts are the same.
fn same_text(a: &str, b: &str) -> (same: bool)
    ensures
        same == (a@ == b@),
{
    String::from_str(a) == String::from_str(b)
}

impl NotificationMode {
    /// The name of the mode.
    pub fn as_str(&self) -> (name: &'static str)
        ensures
            name@ == mode_name(*self),
    {
        match self {
            NotificationMode::Notification => "notification",
            NotificationMode::Dialog => "dialog",
            NotificationMode::Both => "both",
        }
    }

    /// The mode whose name is exactly `name`.
    pub fn from_name(name: &str) -> (mode: Option<NotificationMode>)
        ensures
            mode == mode_named(name@),
    {
        if same_text(name, "notification") {
            Some(NotificationMode::Notification)
        } else if same_text(name, "dialog") {
            Some(NotificationMode::Dialog)
        } else if same_text(name, "both") {
            Some(NotificationMode::Both)
        } else {
            None
        }
    }

    /// The mode that `text` names in lowercase.
    pub fn from_lowercase(text: &str, lower: &str) -> (parsed: Result<NotificationMode, String>)
        ensures
            match mode_named(lower@) {
                Some(mode) => parsed == Ok::<NotificationMode, String>(mode),
                None => parsed is Err && parsed->Err_0@ == INVALID_MODE@ + text@,
            },
    {
        match NotificationMode::from_name(lower) {
            Some(mode) => Ok(mode),
            None => {
                let mut message = String::from_str(INVALID_MODE);
                message.append(text);
                Err(message)
            },
        }
    }

    /// The mode that `text` names, whatever the case of its letters.
    pub fn from_str(text: &str) -> (parsed: Result<NotificationMode, String>)
        ensures
            match mode_named(lowercase(text@)) {
                Some(mode) => parsed == Ok::<NotificationMode, String>(mode),
                None => parsed is Err && parsed->Err_0@ == INVALID_MODE@ + text@,
            },
    {
        let lower = to_lowercase(text);
        NotificationMode::from_lowercase(text, lower.as_str())
    }
}

impl Default for NotificationMode {
    fn default() -> (mode: NotificationMode)
        ensures
            mode == NotificationMode::Notification,
    {
        NotificationMode::Notification
    }
}

impl std::str::FromStr for NotificationMode {
    type Err = String;

    fn from_str(text: &str) -> (parsed: Result<NotificationMode, String>)
        ensures
            match mode_named(lowercase(text@)) {
                Some(mode) => parsed == Ok::<NotificationMode, String>(mode),
                None => parsed is Err && parsed->Err_0@ == INVALID_MODE@ + text@,
            },
    {
        NotificationMode::from_str(text)
    }
}

/// The name of a mode is read back as that mode.
pub proof fn law_mode_names_are_read_back(mode: NotificationMode)
    ensures
        mode_named(mode_name(mode)) == Some(mode),
{
    reveal_strlit("notification");
    reveal_strlit("dialog");
    reveal_strlit("both");
    assert("notification"@.len() == 12);
    assert("dialog"@.len() == 6);
    assert("both"@.len() == 4);
}

/// How to notify.
#[derive(Debug, Clone)]
pub struct NotificationConfig {
    pub mode: NotificationMode,
    pub sound: String,
}

pub struct NotificationConfigView {
    pub mode: NotificationMode,
    pub sound: Seq<char>,
}

impl View for NotificationConfig {
    type V = NotificationConfigView;

    open spec fn view(&self) -> NotificationConfigView {
        NotificationConfigView { mode: self.mode, sound: self.sound@ }
    }
}

/// What holds where the configuration says nothing: a banner, with the
/// default sound.
pub open spec fn default_notification() -> NotificationConfigView {
    NotificationConfigView { mode: NotificationMode::Notification, sound: DEFAULT_SOUND@ }
}

/// The sound that is played unless another is configured.
pub fn default_sound() -> (sound: String)
    ensures
        sound@ == DEFAULT_SOUND@,
{
    String::from_str(DEFAULT_SOUND)
}

impl NotificationConfig {
    /// The configuration with the options that were given, and the default
    /// for each that was not.
    pub fn from_options(mode: Option<NotificationMode>, sound: Option<String>) -> (config:
        NotificationConfig)
        ensures
            config.mode == match mode {
                Some(given) => given,
                None => NotificationMode::Notification,
            },
            config.sound@ == match sound {
                Some(given) => given@,
                None => DEFAULT_SOUND@,
            },
    {
        let mode = match mode {
            Some(given) => given,
            None => NotificationMode::default(),
        };
        let sound = match sound {
            Some(given) => given,
            None => default_sound(),
        };
        NotificationConfig { mode, sound }
    }
}

impl Default for NotificationConfig {
    fn default() -> (config: NotificationConfig)
        ensures
            config@ == default_notification(),
    {
        NotificationConfig { mode: NotificationMode::default(), sound: default_sound() }
    }
}

/// The configuration of the daemon.
#[derive(Debug, Clone)]
pub struct Config {
    pub notification: NotificationConfig,
}

impl View for Config {
    type V = NotificationConfigView;

    open spec fn view(&self) -> NotificationConfigView {
        self.notification@
    }
}

impl Default for Config {
    fn default() -> (config: Config)
        ensures
            config@ == default_notification(),
    {
        Config { notification: NotificationConfig::default() }
    }
}

impl Config {
    /// The configuration with the section that was given, or the defaults.
    pub fn from_options(notification: Option<NotificationConfig>) -> (config: Config)
        ensures
            config@ == match notification {
                Some(given) => given@,
                None => default_notification(),
            },
    {
        match notification {
            Some(given) => Config { notification: given },
            None => Config::default(),
        }
    }

    /// The configuration to run with: what was read from the file, or the
    /// defaults where the file is missing or cannot be understood.
    pub fn load(parsed: Option<Config>) -> (config: Config)
        ensures
            config@ == match parsed {
                Some(given) => given@,
                None => default_notification(),
            },
    {
        match parsed {
            Some(given) => given,
            None => Config::default(),
        }
    }
}

/// Where the configuration file is looked for, given the home directory.
pub open spec fn config_path_in(home: Option<Seq<char>>) -> Seq<char> {
    let base = match home {
        Some(directory) => directory,
        None => FALLBACK_HOME@,
    };
    joined(joined(joined(base, ".config"@), "yumetouch"@), "config.toml"@)
}

/// Where the configuration file is looked for unless a path is given:
/// `.config/yumetouch/config.toml` below the home directory, or below `/tmp`
/// if the home directory is unknown.
pub fn default_config_path(home: Option<&str>) -> (path: String)
    ensures
        path@ == config_path_in(
            match home {
                Some(directory) => Some(directory@),
                None => None,
            },
        ),
{
    let base = match home {
        Some(directory) => directory,
        None => FALLBACK_HOME,
    };
    let path = join(base, ".config");
    let path = join(path.as_str(), "yumetouch");
    join(path.as_str(), "config.toml")
}

} // verus!
