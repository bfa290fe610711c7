//! Configuration values and the rules by which they are picked.

use crate::text::owned;
use vstd::prelude::*;

verus! {

/// API key configuration.
#[derive(Debug)]
pub struct KeysConfig {
    /// Gemini API key.
    pub gemini: Option<String>,
    /// OpenAI API key.
    pub openai: Option<String>,
}

impl Default for KeysConfig {
    fn default() -> (keys: Self)
        ensures
            keys.gemini is None,
            keys.openai is None,
    {
        KeysConfig { gemini: None, openai: None }
    }
}

/// Default parameter values from the configuration file.
#[derive(Debug)]
pub struct DefaultsConfig {
    /// Default model name.
    pub model: String,
    /// Default aspect ratio.
    pub aspect_ratio: String,
    /// Default image size.
    pub size: String,
    /// Default quality.
    pub quality: String,
    /// Default output format.
    pub format: String,
}

impl DefaultsConfig {
    /// These are the built-in defaults.
    pub open spec fn is_builtin(self) -> bool {
        &&& self.model@ == "nano-banana"@
        &&& self.aspect_ratio@ == "1:1"@
        &&& self.size@ == "1K"@
        &&& self.quality@ == "auto"@
        &&& self.format@ == "jpeg"@
    }
}

impl Default for DefaultsConfig {
    fn default() -> (defaults: Self)
        ensures
            defaults.is_builtin(),
    {
        DefaultsConfig {
            model: owned("nano-banana"),
            aspect_ratio: owned("1:1"),
            size: owned("1K"),
            quality: owned("auto"),
            format: owned("jpeg"),
        }
    }
}

/// Top-level configuration.
#[derive(Debug)]
pub struct Config {
    /// API key configuration.
    pub keys: KeysConfig,
    /// Default parameter values, used when command line flags are at their
    /// defaults.
    pub defaults: DefaultsConfig,
}

impl Default for Config {
    fn default() -> (config: Self)
        ensures
            config.keys.gemini is None,
            config.keys.openai is None,
            config.defaults.is_builtin(),
    {
        Config { keys: KeysConfig::default(), defaults: DefaultsConfig::default() }
    }
}

/// The characters of an optional string.
pub open spec fn text_of(value: Option<String>) -> Option<Seq<char>> {
    match value {
        Some(s) => Some(s@),
        None => None,
    }
}

/// The key to use: the one from the environment where there is one, else
/// the one from the configuration file.
pub open spec fn preferred_key(from_env: Option<String>, from_file: Option<String>) -> Option<
    Seq<char>,
> {
    if from_env is Some {
        text_of(from_env)
    } else {
        text_of(from_file)
    }
}

fn prefer(from_env: Option<String>, from_file: &Option<String>) -> (key: Option<String>)
    ensures
        text_of(key) == preferred_key(from_env, *from_file),
{
    match from_env {
        Some(key) => Some(key),
        None => match from_file {
            Some(key) => Some(key.clone()),
            None => None,
        },
    }
}

impl Config {
    /// Get the Gemini API key, preferring `from_env`, the value of the
    /// environment variable `GEMINI_API_KEY`.
    pub fn gemini_key(&self, from_env: Option<String>) -> (key: Option<String>)
        ensures
            text_of(key) == preferred_key(from_env, self.keys.gemini),
    {
        prefer(from_env, &self.keys.gemini)
    }

    /// Get the OpenAI API key, preferring `from_env`, the value of the
    /// environment variable `OPENAI_API_KEY`.
    pub fn openai_key(&self, from_env: Option<String>) -> (key: Option<String>)
        ensures
            text_of(key) == preferred_key(from_env, self.keys.openai),
    {
        prefer(from_env, &self.keys.openai)
    }
}

/// Where the configuration file is looked for.
#[derive(Debug)]
pub enum ConfigLocation {
    /// At this path, given on the command line or in `IMAGEN_CONFIG`.
    File(String),
    /// At `.config/imagen/config.toml` below this home directory.
    UnderHome(String),
    /// At `imagen.toml` in the working directory.
    Local,
}

/// What stands for a [`ConfigLocation`] in specifications.
pub enum ConfigLocationView {
    File(Seq<char>),
    UnderHome(Seq<char>),
    Local,
}

impl View for ConfigLocation {
    type V = ConfigLocationView;

    open spec fn view(&self) -> ConfigLocationView {
        match self {
            ConfigLocation::File(path) => ConfigLocationView::File(path@),
            ConfigLocation::UnderHome(home) => ConfigLocationView::UnderHome(home@),
            ConfigLocation::Local => ConfigLocationView::Local,
        }
    }
}

/// The default location: below the home directory where one is known.
pub open spec fn default_location(home: Option<&str>) -> ConfigLocationView {
    match home {
        Some(dir) => ConfigLocationView::UnderHome(dir@),
        None => ConfigLocationView::Local,
    }
}

/// The location by the resolution order: the explicit path, then the
/// environment, then the default.
pub open spec fn config_location(
    explicit: Option<&str>,
    from_env: Option<&str>,
    home: Option<&str>,
) -> ConfigLocationView {
    match explicit {
        Some(path) => ConfigLocationView::File(path@),
        None => match from_env {
            Some(path) => ConfigLocationView::File(path@),
            None => default_location(home),
        },
    }
}

/// Default config location: `~/.config/imagen/config.toml`, or
/// `imagen.toml` when `home`, the value of `HOME`, is not set.
pub fn default_config_path(home: Option<&str>) -> (location: ConfigLocation)
    ensures
        location@ == default_location(home),
{
    match home {
        Some(dir) => ConfigLocation::UnderHome(owned(dir)),
        None => ConfigLocation::Local,
    }
}

/// Discover the config file location using the resolution order:
/// 1. the explicit path (from the `--config` flag),
/// 2. `from_env`, the value of the `IMAGEN_CONFIG` environment variable,
/// 3. the default location for `home`, the value of `HOME`.
pub fn discover_config_path(explicit: Option<&str>, from_env: Option<&str>, home: Option<&str>)
    -> (location: ConfigLocation)
    ensures
        location@ == config_location(explicit, from_env, home),
{
    if let Some(path) = explicit {
        return ConfigLocation::File(owned(path));
    }
    if let Some(path) = from_env {
        return ConfigLocation::File(owned(path));
    }
    default_config_path(home)
}

/// The value in effect for a flag: the command line value where it differs
/// from the built-in default, else the value from the configuration file.
pub open spec fn effective(cli_val: Seq<char>, cli_default: Seq<char>, config_val: Seq<char>)
    -> Seq<char> {
    if cli_val == cli_default {
        config_val
    } else {
        cli_val
    }
}

/// Returns `cli_val` if it differs from `cli_default` (the user passed the
/// flag), otherwise `config_val` (from the defaults of the configuration
/// file).
pub fn apply_defaults(cli_val: &str, cli_default: &str, config_val: &str) -> (value: String)
    ensures
        value@ == effective(cli_val@, cli_default@, config_val@),
{
    if crate::text::str_eq(cli_val, cli_default) {
        owned(config_val)
    } else {
        owned(cli_val)
    }
}

} // verus!
