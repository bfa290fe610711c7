//! Model name resolution and provider detection.

use crate::text::{concat3, owned, starts_with, str_eq};
use vstd::prelude::*;

verus! {

/// Supported API providers.
#[derive(Debug, Clone, Copy, PartialEq, Eq, Structural)]
pub enum Provider {
    /// Google Gemini API.
    Gemini,
    /// OpenAI API.
    OpenAi,
}

/// The full model identifier that a name stands for: the target of a short
/// alias, or the name itself.
pub open spec fn resolved_model(name: Seq<char>) -> Seq<char> {
    if name == "nano-banana"@ {
        "gemini-3.1-flash-image-preview"@
    } else if name == "nano-banana-pro"@ {
        "gemini-3-pro-image-preview"@
    } else if name == "gpt-1.5"@ {
        "gpt-image-1.5"@
    } else if name == "gpt-1"@ {
        "gpt-image-1"@
    } else if name == "gpt-1-mini"@ {
        "gpt-image-1-mini"@
    } else {
        name
    }
}

/// Resolve a model name (alias or exact) to the full model identifier.
pub fn resolve_model(name: &str) -> (full: String)
    ensures
        full@ == resolved_model(name@),
{
    if str_eq(name, "nano-banana") {
        owned("gemini-3.1-flash-image-preview")
    } else if str_eq(name, "nano-banana-pro") {
        owned("gemini-3-pro-image-preview")
    } else if str_eq(name, "gpt-1.5") {
        owned("gpt-image-1.5")
    } else if str_eq(name, "gpt-1") {
        owned("gpt-image-1")
    } else if str_eq(name, "gpt-1-mini") {
        owned("gpt-image-1-mini")
    } else {
        owned(name)
    }
}

/// The provider that serves a resolved model name, told by its prefix.
pub open spec fn provider_of(model: Seq<char>) -> Option<Provider> {
    if "gemini"@.is_prefix_of(model) {
        Some(Provider::Gemini)
    } else if "gpt-image"@.is_prefix_of(model) {
        Some(Provider::OpenAi)
    } else {
        None
    }
}

/// The message for a model name that no provider serves.
pub open spec fn unknown_provider_message(model: Seq<char>) -> Seq<char> {
    "Unknown provider for model '"@ + model + "'. Expected 'gemini-*' or 'gpt-image-*'."@
}

/// Detect the provider from a resolved model name.
///
/// Fails, with a message that quotes the name, when the name carries neither
/// known prefix.
pub fn detect_provider(model: &str) -> (r: Result<Provider, String>)
    ensures
        match r {
            Ok(p) => provider_of(model@) == Some(p),
            Err(e) => provider_of(model@) is None && e@ == unknown_provider_message(model@),
        },
{
    if starts_with(model, "gemini") {
        Ok(Provider::Gemini)
    } else if starts_with(model, "gpt-image") {
        Ok(Provider::OpenAi)
    } else {
        Err(
            concat3(
                "Unknown provider for model '",
                model,
                "'. Expected 'gemini-*' or 'gpt-image-*'.",
            ),
        )
    }
}

} // verus!
