//! What a run needs before it can call a service.

use crate::cassette::format::InteractionView;
use crate::cassette::recorder::CassetteRecorder;
use crate::config::{preferred_key, text_of, Config};
use crate::error::ImageError;
use crate::model::Provider;
use crate::text::{concat, concat3, decimal, decimal_string, owned, trim, trimmed};
use vstd::prelude::*;
use vstd::string::*;
use vstd::utf8::encode_utf8;

verus! {

/// The name of a provider in messages about its key.
pub open spec fn provider_title(provider: Provider) -> Seq<char> {
    match provider {
        Provider::Gemini => "Gemini"@,
        Provider::OpenAi => "OpenAI"@,
    }
}

/// The environment variable that holds the key of a provider.
pub open spec fn key_variable(provider: Provider) -> Seq<char> {
    match provider {
        Provider::Gemini => "GEMINI_API_KEY"@,
        Provider::OpenAi => "OPENAI_API_KEY"@,
    }
}

/// The key for a provider: the value of its environment variable where
/// that is set, else the key of the configuration file.
pub open spec fn key_for(
    provider: Provider,
    config: Config,
    gemini_env: Option<String>,
    openai_env: Option<String>,
) -> Option<Seq<char>> {
    match provider {
        Provider::Gemini => preferred_key(gemini_env, config.keys.gemini),
        Provider::OpenAi => preferred_key(openai_env, config.keys.openai),
    }
}

/// Find the API key for a live call to the provider. `gemini_env` and
/// `openai_env` are the values of `GEMINI_API_KEY` and `OPENAI_API_KEY`.
///
/// Fails with a missing key error, which names the provider and its
/// variable, exactly when neither the environment nor the file has a key.
pub fn api_key(
    provider: Provider,
    config: &Config,
    gemini_env: Option<String>,
    openai_env: Option<String>,
) -> (found: Result<String, ImageError>)
    ensures
        match found {
            Ok(key) => key_for(provider, *config, gemini_env, openai_env) == Some(key@),
            Err(error) => key_for(provider, *config, gemini_env, openai_env) is None && (
            error matches ImageError::MissingApiKey { provider: title, env_var } && title@
                == provider_title(provider) && env_var@ == key_variable(provider)),
        },
{
    match provider {
        Provider::Gemini => match config.gemini_key(gemini_env) {
            Some(key) => Ok(key),
            None => Err(
                ImageError::MissingApiKey {
                    provider: owned("Gemini"),
                    env_var: owned("GEMINI_API_KEY"),
                },
            ),
        },
        Provider::OpenAi => match config.openai_key(openai_env) {
            Some(key) => Ok(key),
            None => Err(
                ImageError::MissingApiKey {
                    provider: owned("OpenAI"),
                    env_var: owned("OPENAI_API_KEY"),
                },
            ),
        },
    }
}

/// The warning about a key that looks invalid: an empty key after
/// trimming, or one of less than ten bytes.
pub open spec fn key_warning_text(key: Seq<char>, provider: Seq<char>) -> Option<Seq<char>> {
    let bytes = encode_utf8(trimmed(key)).len();
    if trimmed(key).len() == 0 {
        Some("Warning: "@ + provider + " API key is empty"@)
    } else if bytes < 10 {
        Some(
            "Warning: "@ + provider + " API key looks too short ("@ + decimal(bytes) + " chars)"@,
        )
    } else {
        None
    }
}

/// The warning to show if an API key looks invalid.
pub fn key_warning(key: &str, provider: &str) -> (warning: Option<String>)
    ensures
        text_of(warning) == key_warning_text(key@, provider@),
{
    let kept = trim(key);
    let bytes = kept.as_bytes().len();
    if kept.is_empty() {
        Some(concat3("Warning: ", provider, " API key is empty"))
    } else if bytes < 10 {
        let mut text = concat3("Warning: ", provider, " API key looks too short (");
        text.append(decimal_string(bytes as u64).as_str());
        text.append(" chars)");
        Some(text)
    } else {
        None
    }
}

/// The label for the code revision, from what asking for it printed:
/// the trimmed text, or `unknown` when nothing could be had.
pub open spec fn commit_text(printed: Option<&str>) -> Seq<char> {
    match printed {
        Some(text) => trimmed(text@),
        None => "unknown"@,
    }
}

/// The commit label for a recording. `printed` is the output of the
/// revision query where it ran, succeeded and printed text.
pub fn commit_label(printed: Option<&str>) -> (label: String)
    ensures
        label@ == commit_text(printed),
{
    match printed {
        Some(text) => owned(trim(text)),
        None => owned("unknown"),
    }
}

/// Start the recorder of a recording run: its cassette is named after the
/// time of the run, given as text, and the image generator port.
pub fn start_recording(path: &str, timestamp: &str, commit: &str) -> (recorder: CassetteRecorder)
    ensures
        recorder.path() == path@,
        recorder.name() == timestamp@ + "-image_generator"@,
        recorder.commit() == commit@,
        recorder.recorded() == Seq::<InteractionView>::empty(),
{
    let name = concat(timestamp, "-image_generator");
    CassetteRecorder::new(path, name.as_str(), commit)
}

} // verus!
