//! The configuration of the window that shows the content, the rule that
//! says when it is complete, and the choice of the monitor to show it on.

use vstd::prelude::*;
use vstd::string::*;

verus! {

/// The configuration file's content. `S` is the type in which a width or a
/// height is given; the rules here only ask whether one is given.
#[derive(Debug, Clone, PartialEq, Eq)]
pub struct Config<S> {
    /// Monitor to put the window on, by its place in the list of monitors.
    pub monitor_index: Option<usize>,
    /// Monitor to put the window on: any monitor whose model contains this
    /// text matches, whatever the case of ASCII letters.
    pub monitor_model: Option<String>,
    /// Attach the top of the window to the top of the screen, stretching if
    /// the opposite is also attached.
    pub attach_top: bool,
    pub attach_right: bool,
    pub attach_bottom: bool,
    pub attach_left: bool,
    /// If left or right aren't attached, the window's width.
    pub width: Option<S>,
    /// If top or bottom aren't attached, the window's height.
    pub height: Option<S>,
    /// Let the window take keyboard focus.
    pub enable_keyboard: bool,
    /// Window title.
    pub title: Option<String>,
    /// Path of the local socket for requests from outside.
    pub listen: Option<String>,
}

/// Why a configuration cannot be used.
#[derive(Debug, Clone, Copy, PartialEq, Eq)]
pub enum ConfigError {
    /// Left and right are both attached, so a width has no meaning, but one
    /// is given.
    WidthNotAllowed,
    /// Left and right are not both attached, so a width is needed, but none
    /// is given.
    WidthMissing,
    /// Top and bottom are both attached, but a height is given.
    HeightNotAllowed,
    /// Top and bottom are not both attached, but no height is given.
    HeightMissing,
}

/// What the rule says of one direction: the size must be given exactly when
/// the two opposite edges are not both attached.
pub open spec fn size_fits(both_attached: bool, given: bool) -> bool {
    both_attached != given
}

/// The first fault of a configuration, the width looked at before the
/// height; `None` where it is complete.
pub open spec fn first_fault<S>(config: Config<S>) -> Option<ConfigError> {
    let across = config.attach_left && config.attach_right;
    let down = config.attach_top && config.attach_bottom;
    if across && config.width is Some {
        Some(ConfigError::WidthNotAllowed)
    } else if !across && config.width is None {
        Some(ConfigError::WidthMissing)
    } else if down && config.height is Some {
        Some(ConfigError::HeightNotAllowed)
    } else if !down && config.height is None {
        Some(ConfigError::HeightMissing)
    } else {
        None
    }
}

impl<S> Config<S> {
    /// Checks that width and height are given exactly where they are needed.
    pub fn validate(&self) -> (r: Result<(), ConfigError>)
        ensures
            match r {
                Ok(_) => first_fault(*self) is None,
                Err(e) => first_fault(*self) == Some(e),
            },
    {
        if self.attach_left && self.attach_right {
            if self.width.is_some() {
                return Err(ConfigError::WidthNotAllowed);
            }
        } else if self.width.is_none() {
            return Err(ConfigError::WidthMissing);
        }
        if self.attach_top && self.attach_bottom {
            if self.height.is_some() {
                return Err(ConfigError::HeightNotAllowed);
            }
        } else if self.height.is_none() {
            return Err(ConfigError::HeightMissing);
        }
        Ok(())
    }
}

/// A configuration passes exactly when the rule holds in both directions.
pub proof fn lemma_valid_means_sizes_fit<S>(config: Config<S>)
    ensures
        first_fault(config) is None <==> {
            &&& size_fits(config.attach_left && config.attach_right, config.width is Some)
            &&& size_fits(config.attach_top && config.attach_bottom, config.height is Some)
        },
{
}

impl ConfigError {
    /// The message shown for a configuration that cannot be used.
    pub fn message(&self) -> (m: String)
        ensures
            m@ == config_error_text(*self),
    {
        match self {
            ConfigError::WidthNotAllowed => String::from_str(
                "Both left and right sides of the window are attached to edges, width cannot be used but it is set in the config (should be null)",
            ),
            ConfigError::WidthMissing => String::from_str(
                "Left or right window edge attachments aren't set so the width is not decided but width is missing from the config",
            ),
            ConfigError::HeightNotAllowed => String::from_str(
                "Both left and right sides of the window are attached to edges, height cannot be used but it is set in the config (should be null)",
            ),
            ConfigError::HeightMissing => String::from_str(
                "Left or right window edge attachments aren't set so the height is not decided but height is missing from the config",
            ),
        }
    }
}

/// The message shown for a configuration that cannot be used.
pub open spec fn config_error_text(e: ConfigError) -> Seq<char> {
    match e {
        ConfigError::WidthNotAllowed => "Both left and right sides of the window are attached to edges, width cannot be used but it is set in the config (should be null)"@,
        ConfigError::WidthMissing => "Left or right window edge attachments aren't set so the width is not decided but width is missing from the config"@,
        ConfigError::HeightNotAllowed => "Both left and right sides of the window are attached to edges, height cannot be used but it is set in the config (should be null)"@,
        ConfigError::HeightMissing => "Left or right window edge attachments aren't set so the height is not decided but height is missing from the config"@,
    }
}

/// The monitor that was chosen.
#[derive(Debug, Clone, Copy, PartialEq, Eq)]
pub enum MonitorChoice {
    /// The monitor at this place in the list.
    Listed(usize),
    /// The display's primary monitor.
    Primary,
}

/// The small letter for an ASCII capital; any other character as it is.
pub open spec fn lower_char(c: char) -> char {
    if 0x41 <= c as u32 <= 0x5a {
        ((c as u8 + 0x20) as u8) as char
    } else {
        c
    }
}

/// `text` with its ASCII capitals turned into small letters.
pub open spec fn ascii_lowered(text: Seq<char>) -> Seq<char> {
    Seq::new(text.len(), |i: int| lower_char(text[i]))
}

/// `needle` stands somewhere in `hay`, character for character.
pub open spec fn occurs_in(needle: Seq<char>, hay: Seq<char>) -> bool {
    exists|at: int|
        0 <= at && at + needle.len() <= hay.len() && #[trigger] hay.subrange(
            at,
            at + needle.len(),
        ) == needle
}

/// The model `model` matches the wanted text `wanted`: with ASCII capitals
/// made small on both sides, `wanted` stands somewhere in `model`.
pub open spec fn model_matches(model: Seq<char>, wanted: Seq<char>) -> bool {
    occurs_in(ascii_lowered(wanted), ascii_lowered(model))
}

/// Trusted: `str::to_ascii_lowercase`. The result has the characters of the
/// argument, with `A` to `Z` replaced by `a` to `z`.
#[verifier::external_body]
fn ascii_lowercase(text: &str) -> (lower: String)
    ensures
        lower@ == ascii_lowered(text@),
{
    text.to_ascii_lowercase()
}

/// Trusted: `str::contains` with a `&str` as the pattern. It is `true`
/// exactly when the pattern is a substring.
#[verifier::external_body]
fn contains_text(hay: &str, needle: &str) -> (found: bool)
    ensures
        found == occurs_in(needle@, hay@),
{
    hay.contains(needle)
}

/// `at` is the first place in `models` whose model matches `wanted`.
pub open spec fn is_first_match(models: Seq<String>, wanted: Seq<char>, at: int) -> bool {
    &&& 0 <= at < models.len()
    &&& model_matches(models[at]@, wanted)
    &&& forall|j: int| 0 <= j < at ==> !model_matches(#[trigger] models[j]@, wanted)
}

/// Finds the first monitor whose model matches `wanted`.
pub fn find_model(models: &Vec<String>, wanted: &str) -> (r: Option<usize>)
    ensures
        match r {
            Some(at) => is_first_match(models@, wanted@, at as int),
            None => forall|j: int|
                0 <= j < models@.len() ==> !model_matches(#[trigger] models@[j]@, wanted@),
        },
{
    let low_wanted = ascii_lowercase(wanted);
    let n = models.len();
    let mut i: usize = 0;
    while i < n
        invariant
            n == models@.len(),
            i <= n,
            low_wanted@ == ascii_lowered(wanted@),
            forall|j: int| 0 <= j < i ==> !model_matches(#[trigger] models@[j]@, wanted@),
        decreases n - i,
    {
        let low_model = ascii_lowercase(models[i].as_str());
        if contains_text(low_model.as_str(), low_wanted.as_str()) {
            return Some(i);
        }
        i = i + 1;
    }
    None
}

/// The monitor that the rules choose, or `None` where there is none to
/// choose. `models` holds the model of every monitor in the display's order
/// (empty where a monitor names none).
pub open spec fn chosen<S>(
    config: Config<S>,
    models: Seq<String>,
    has_primary: bool,
    choice: Option<MonitorChoice>,
) -> bool {
    if config.monitor_index is Some && config.monitor_index->Some_0 < models.len() {
        choice == Some(MonitorChoice::Listed(config.monitor_index->Some_0))
    } else if config.monitor_model is Some && exists|at: int|
        is_first_match(models, config.monitor_model->Some_0@, at) {
        &&& choice matches Some(MonitorChoice::Listed(at))
        &&& is_first_match(models, config.monitor_model->Some_0@, at as int)
    } else if has_primary {
        choice == Some(MonitorChoice::Primary)
    } else if models.len() > 0 {
        choice == Some(MonitorChoice::Listed(0))
    } else {
        choice is None
    }
}

/// Chooses the monitor for the window: the one at the configured index if
/// there is one; else the first whose model contains the configured text;
/// else the primary monitor; else the first monitor; else none.
pub fn choose_monitor<S>(config: &Config<S>, models: &Vec<String>, has_primary: bool) -> (choice:
    Option<MonitorChoice>)
    ensures
        chosen(*config, models@, has_primary, choice),
{
    match config.monitor_index {
        Some(index) => {
            if index < models.len() {
                return Some(MonitorChoice::Listed(index));
            }
        },
        None => {},
    }
    match &config.monitor_model {
        Some(wanted) => {
            match find_model(models, wanted.as_str()) {
                Some(at) => {
                    return Some(MonitorChoice::Listed(at));
                },
                None => {},
            }
        },
        None => {},
    }
    if has_primary {
        Some(MonitorChoice::Primary)
    } else if models.len() > 0 {
        Some(MonitorChoice::Listed(0))
    } else {
        None
    }
}

} // verus!
