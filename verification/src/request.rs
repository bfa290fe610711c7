//! From the command line and the configuration to a request.

use crate::cli::Cli;
use crate::config::{apply_defaults, effective, Config};
use crate::error::ImageError;
use crate::model::{
    detect_provider, provider_of, resolve_model, resolved_model, unknown_provider_message, Provider,
};
use crate::params::{
    is_supported_format, is_supported_quality, is_supported_ratio, is_supported_size,
    unsupported_format_message, unsupported_quality_message, unsupported_ratio_message,
    unsupported_size_message, validate_aspect_ratio, validate_format, validate_quality,
    validate_size,
};
use crate::ports::image_generator::ImageRequest;
use crate::text::{concat, decimal, decimal_string, owned, str_eq};
use vstd::prelude::*;
use vstd::string::*;

verus! {

/// The parameter values in effect for a run.
#[derive(Debug)]
pub struct Settings {
    /// Model name or alias.
    pub model: String,
    /// Aspect ratio.
    pub aspect_ratio: String,
    /// Image size.
    pub size: String,
    /// Quality.
    pub quality: String,
    /// Output format.
    pub format: String,
}

/// What stands for [`Settings`] in specifications.
pub struct SettingsView {
    pub model: Seq<char>,
    pub aspect_ratio: Seq<char>,
    pub size: Seq<char>,
    pub quality: Seq<char>,
    pub format: Seq<char>,
}

impl View for Settings {
    type V = SettingsView;

    open spec fn view(&self) -> SettingsView {
        SettingsView {
            model: self.model@,
            aspect_ratio: self.aspect_ratio@,
            size: self.size@,
            quality: self.quality@,
            format: self.format@,
        }
    }
}

/// The settings in effect: for each flag the command line value where it
/// differs from the built-in default, else the value of the configuration
/// file.
pub open spec fn settings_in_effect(cli: Cli, config: Config) -> SettingsView {
    SettingsView {
        model: effective(cli.model@, "nano-banana"@, config.defaults.model@),
        aspect_ratio: effective(cli.aspect_ratio@, "1:1"@, config.defaults.aspect_ratio@),
        size: effective(cli.size@, "1K"@, config.defaults.size@),
        quality: effective(cli.quality@, "auto"@, config.defaults.quality@),
        format: effective(cli.format@, "jpeg"@, config.defaults.format@),
    }
}

/// Apply the defaults of the configuration file to the flags that are
/// still at their built-in defaults.
pub fn effective_settings(cli: &Cli, config: &Config) -> (settings: Settings)
    ensures
        settings@ == settings_in_effect(*cli, *config),
{
    Settings {
        model: apply_defaults(cli.model.as_str(), "nano-banana", config.defaults.model.as_str()),
        aspect_ratio: apply_defaults(
            cli.aspect_ratio.as_str(),
            "1:1",
            config.defaults.aspect_ratio.as_str(),
        ),
        size: apply_defaults(cli.size.as_str(), "1K", config.defaults.size.as_str()),
        quality: apply_defaults(cli.quality.as_str(), "auto", config.defaults.quality.as_str()),
        format: apply_defaults(cli.format.as_str(), "jpeg", config.defaults.format.as_str()),
    }
}

/// The first complaint about the settings, if there is one: the model must
/// name a provider, then the aspect ratio, the size, the quality and the
/// format must each be supported.
pub open spec fn complaint(settings: SettingsView) -> Option<Seq<char>> {
    let model = resolved_model(settings.model);
    match provider_of(model) {
        None => Some(unknown_provider_message(model)),
        Some(provider) => if !is_supported_ratio(settings.aspect_ratio) {
            Some(unsupported_ratio_message(settings.aspect_ratio, provider))
        } else if !is_supported_size(settings.size) {
            Some(unsupported_size_message(settings.size))
        } else if !is_supported_quality(settings.quality) {
            Some(unsupported_quality_message(settings.quality))
        } else if !is_supported_format(settings.format) {
            Some(unsupported_format_message(settings.format))
        } else {
            None
        },
    }
}

/// A request and the provider that is to serve it.
#[derive(Debug)]
pub struct Order {
    /// The provider of the model.
    pub provider: Provider,
    /// The request for that provider.
    pub request: ImageRequest,
}

/// The order holds the settings, with the model resolved, and the prompt,
/// the count and the thinking level as given.
pub open spec fn order_matches(
    order: Order,
    settings: SettingsView,
    prompt: Seq<char>,
    count: u32,
    thinking: Option<String>,
) -> bool {
    &&& provider_of(resolved_model(settings.model)) == Some(order.provider)
    &&& order.request.model@ == resolved_model(settings.model)
    &&& order.request.prompt@ == prompt
    &&& order.request.aspect_ratio@ == settings.aspect_ratio
    &&& order.request.size@ == settings.size
    &&& order.request.quality@ == settings.quality
    &&& order.request.format@ == settings.format
    &&& order.request.count == count
    &&& crate::config::text_of(order.request.thinking) == crate::config::text_of(thinking)
}

/// Resolve the model, find its provider, validate the parameters and build
/// the request.
///
/// Fails with an invalid argument error that carries the first complaint
/// about the settings, and succeeds when there is none.
pub fn build_request(settings: &Settings, prompt: &str, count: u32, thinking: &Option<String>)
    -> (built: Result<Order, ImageError>)
    ensures
        match built {
            Ok(order) => complaint(settings@) is None && order_matches(
                order,
                settings@,
                prompt@,
                count,
                *thinking,
            ),
            Err(error) => error matches ImageError::InvalidArgument(message) && complaint(
                settings@,
            ) == Some(message@),
        },
{
    let model = resolve_model(settings.model.as_str());
    let provider = match detect_provider(model.as_str()) {
        Ok(provider) => provider,
        Err(message) => {
            return Err(ImageError::InvalidArgument(message));
        },
    };
    if let Err(message) = validate_aspect_ratio(settings.aspect_ratio.as_str(), provider) {
        return Err(ImageError::InvalidArgument(message));
    }
    if let Err(message) = validate_size(settings.size.as_str()) {
        return Err(ImageError::InvalidArgument(message));
    }
    if let Err(message) = validate_quality(settings.quality.as_str()) {
        return Err(ImageError::InvalidArgument(message));
    }
    if let Err(message) = validate_format(settings.format.as_str()) {
        return Err(ImageError::InvalidArgument(message));
    }
    let thinking = match thinking {
        Some(level) => Some(level.clone()),
        None => None,
    };
    Ok(
        Order {
            provider,
            request: ImageRequest {
                model,
                prompt: owned(prompt),
                aspect_ratio: settings.aspect_ratio.clone(),
                size: settings.size.clone(),
                quality: settings.quality.clone(),
                format: settings.format.clone(),
                count,
                thinking,
            },
        },
    )
}

/// How the generator is backed for a run.
#[derive(Debug)]
pub enum Mode {
    /// Answers come from the cassette at this path.
    Replaying(String),
    /// Calls go to the live service and are recorded.
    Recording,
    /// Calls go to the live service.
    Live,
}

/// What stands for a [`Mode`] in specifications.
pub enum ModeView {
    Replaying(Seq<char>),
    Recording,
    Live,
}

impl View for Mode {
    type V = ModeView;

    open spec fn view(&self) -> ModeView {
        match self {
            Mode::Replaying(path) => ModeView::Replaying(path@),
            Mode::Recording => ModeView::Recording,
            Mode::Live => ModeView::Live,
        }
    }
}

/// The mode for the values of `IMAGEN_REPLAY` and `IMAGEN_REC`: a cassette
/// to replay comes first, then recording when it is switched on with `true`
/// or `1`, else live.
pub open spec fn mode_for(replay: Option<&str>, recording: Option<&str>) -> ModeView {
    match replay {
        Some(path) => ModeView::Replaying(path@),
        None => match recording {
            Some(flag) => if flag@ == "true"@ || flag@ == "1"@ {
                ModeView::Recording
            } else {
                ModeView::Live
            },
            None => ModeView::Live,
        },
    }
}

/// Select the mode of a run from the values of the environment variables
/// `IMAGEN_REPLAY` and `IMAGEN_REC`.
pub fn select_mode(replay: Option<&str>, recording: Option<&str>) -> (mode: Mode)
    ensures
        mode@ == mode_for(replay, recording),
{
    if let Some(path) = replay {
        return Mode::Replaying(owned(path));
    }
    if let Some(flag) = recording {
        if str_eq(flag, "true") || str_eq(flag, "1") {
            return Mode::Recording;
        }
    }
    Mode::Live
}

/// What is added to the file name of image number `index` of `total`:
/// nothing for a single image, else a hyphen and the image's number counted
/// from one.
pub open spec fn suffix_text(index: nat, total: nat) -> Seq<char> {
    if total > 1 {
        "-"@ + decimal(index + 1)
    } else {
        Seq::empty()
    }
}

/// The suffix that tells the images of one response apart.
pub fn image_suffix(index: usize, total: usize) -> (suffix: String)
    requires
        index < total,
    ensures
        suffix@ == suffix_text(index as nat, total as nat),
{
    if total > 1 {
        concat("-", decimal_string((index + 1) as u64).as_str())
    } else {
        String::new()
    }
}

/// The file name of one image among several: the stem, the suffix, a dot
/// and the extension.
pub fn suffixed_file_name(stem: &str, suffix: &str, extension: &str) -> (name: String)
    ensures
        name@ == stem@ + suffix@ + "."@ + extension@,
{
    let mut name = concat(stem, suffix);
    name.append(".");
    name.append(extension);
    name
}

} // verus!
