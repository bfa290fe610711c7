//! The parameters of a request: which values are accepted, and what they
//! become for a provider.

use crate::model::Provider;
use crate::text::{concat3, owned, str_eq};
use vstd::prelude::*;
use vstd::string::*;

verus! {

/// Landscape aspect ratios.
pub open spec fn is_landscape(ratio: Seq<char>) -> bool {
    ratio == "16:9"@ || ratio == "3:2"@ || ratio == "4:3"@ || ratio == "21:9"@ || ratio == "5:4"@
}

/// Portrait aspect ratios.
pub open spec fn is_portrait(ratio: Seq<char>) -> bool {
    ratio == "9:16"@ || ratio == "2:3"@ || ratio == "3:4"@ || ratio == "4:5"@
}

/// The OpenAI pixel size for an aspect ratio: square, landscape, portrait,
/// or `auto` for anything else.
pub open spec fn openai_size(ratio: Seq<char>) -> Seq<char> {
    if ratio == "1:1"@ {
        "1024x1024"@
    } else if is_landscape(ratio) {
        "1536x1024"@
    } else if is_portrait(ratio) {
        "1024x1536"@
    } else {
        "auto"@
    }
}

/// Turn an aspect ratio into the pixel dimensions that OpenAI takes.
///
/// OpenAI supports `1024x1024`, `1536x1024`, `1024x1536` and `auto`.
pub fn aspect_ratio_to_openai_size(ratio: &str) -> (size: &'static str)
    ensures
        size@ == openai_size(ratio@),
{
    if str_eq(ratio, "1:1") {
        "1024x1024"
    } else if str_eq(ratio, "16:9") || str_eq(ratio, "3:2") || str_eq(ratio, "4:3") || str_eq(
        ratio,
        "21:9",
    ) || str_eq(ratio, "5:4") {
        "1536x1024"
    } else if str_eq(ratio, "9:16") || str_eq(ratio, "2:3") || str_eq(ratio, "3:4") || str_eq(
        ratio,
        "4:5",
    ) {
        "1024x1536"
    } else {
        "auto"
    }
}

/// The aspect ratios that both providers accept.
pub open spec fn is_supported_ratio(ratio: Seq<char>) -> bool {
    ratio == "1:1"@ || is_landscape(ratio) || is_portrait(ratio)
}

/// The provider's name as it appears in messages.
pub open spec fn provider_label(provider: Provider) -> Seq<char> {
    match provider {
        Provider::Gemini => "Gemini"@,
        Provider::OpenAi => "OpenAi"@,
    }
}

/// The provider's list of valid ratios as it appears in messages.
pub open spec fn ratio_list(provider: Provider) -> Seq<char> {
    match provider {
        Provider::Gemini =>
            "[\"1:1\", \"2:3\", \"3:2\", \"3:4\", \"4:3\", \"4:5\", \"5:4\", \"9:16\", \"16:9\", \"21:9\"]"@,
        Provider::OpenAi =>
            "[\"1:1\", \"16:9\", \"9:16\", \"3:2\", \"2:3\", \"4:3\", \"3:4\", \"5:4\", \"4:5\", \"21:9\"]"@,
    }
}

/// The message for an aspect ratio that the provider does not accept.
pub open spec fn unsupported_ratio_message(ratio: Seq<char>, provider: Provider) -> Seq<char> {
    "Unsupported aspect ratio '"@ + ratio + "' for "@ + provider_label(provider) + ". Valid: "@
        + ratio_list(provider)
}

/// Validate that an aspect ratio is supported by the given provider.
///
/// Succeeds exactly on the supported ratios; otherwise the error names the
/// ratio, the provider and the ratios the provider accepts.
pub fn validate_aspect_ratio(ratio: &str, provider: Provider) -> (r: Result<(), String>)
    ensures
        r is Ok <==> is_supported_ratio(ratio@),
        r matches Err(e) ==> e@ == unsupported_ratio_message(ratio@, provider),
{
    let valid = str_eq(ratio, "1:1") || str_eq(ratio, "16:9") || str_eq(ratio, "3:2") || str_eq(
        ratio,
        "4:3",
    ) || str_eq(ratio, "21:9") || str_eq(ratio, "5:4") || str_eq(ratio, "9:16") || str_eq(
        ratio,
        "2:3",
    ) || str_eq(ratio, "3:4") || str_eq(ratio, "4:5");
    if valid {
        Ok(())
    } else {
        let mut message = concat3("Unsupported aspect ratio '", ratio, "' for ");
        match provider {
            Provider::Gemini => {
                message.append("Gemini");
                message.append(". Valid: ");
                message.append(
                    "[\"1:1\", \"2:3\", \"3:2\", \"3:4\", \"4:3\", \"4:5\", \"5:4\", \"9:16\", \"16:9\", \"21:9\"]",
                );
            },
            Provider::OpenAi => {
                message.append("OpenAi");
                message.append(". Valid: ");
                message.append(
                    "[\"1:1\", \"16:9\", \"9:16\", \"3:2\", \"2:3\", \"4:3\", \"3:4\", \"5:4\", \"4:5\", \"21:9\"]",
                );
            },
        }
        Err(message)
    }
}

/// The image sizes that can be asked for.
pub open spec fn is_supported_size(size: Seq<char>) -> bool {
    size == "1K"@ || size == "2K"@ || size == "4K"@
}

/// The message for an unknown image size.
pub open spec fn unsupported_size_message(size: Seq<char>) -> Seq<char> {
    "Unsupported size '"@ + size + "'. Valid: 1K, 2K, 4K"@
}

/// Validate the image size parameter.
pub fn validate_size(size: &str) -> (r: Result<(), String>)
    ensures
        r is Ok <==> is_supported_size(size@),
        r matches Err(e) ==> e@ == unsupported_size_message(size@),
{
    if str_eq(size, "1K") || str_eq(size, "2K") || str_eq(size, "4K") {
        Ok(())
    } else {
        Err(concat3("Unsupported size '", size, "'. Valid: 1K, 2K, 4K"))
    }
}

/// The quality levels that can be asked for.
pub open spec fn is_supported_quality(quality: Seq<char>) -> bool {
    quality == "auto"@ || quality == "low"@ || quality == "medium"@ || quality == "high"@
}

/// The message for an unknown quality level.
pub open spec fn unsupported_quality_message(quality: Seq<char>) -> Seq<char> {
    "Unsupported quality '"@ + quality + "'. Valid: auto, low, medium, high"@
}

/// Validate the quality parameter.
pub fn validate_quality(quality: &str) -> (r: Result<(), String>)
    ensures
        r is Ok <==> is_supported_quality(quality@),
        r matches Err(e) ==> e@ == unsupported_quality_message(quality@),
{
    if str_eq(quality, "auto") || str_eq(quality, "low") || str_eq(quality, "medium") || str_eq(
        quality,
        "high",
    ) {
        Ok(())
    } else {
        Err(concat3("Unsupported quality '", quality, "'. Valid: auto, low, medium, high"))
    }
}

/// The output formats that can be asked for.
pub open spec fn is_supported_format(format: Seq<char>) -> bool {
    format == "jpeg"@ || format == "png"@ || format == "webp"@
}

/// The message for an unknown output format.
pub open spec fn unsupported_format_message(format: Seq<char>) -> Seq<char> {
    "Unsupported format '"@ + format + "'. Valid: jpeg, png, webp"@
}

/// Validate the output format parameter.
pub fn validate_format(format: &str) -> (r: Result<(), String>)
    ensures
        r is Ok <==> is_supported_format(format@),
        r matches Err(e) ==> e@ == unsupported_format_message(format@),
{
    if str_eq(format, "jpeg") || str_eq(format, "png") || str_eq(format, "webp") {
        Ok(())
    } else {
        Err(concat3("Unsupported format '", format, "'. Valid: jpeg, png, webp"))
    }
}

/// The thinking levels that a Gemini model accepts.
pub open spec fn is_supported_thinking(thinking: Seq<char>) -> bool {
    thinking == "none"@ || thinking == "minimal"@ || thinking == "low"@ || thinking == "medium"@
        || thinking == "high"@
}

/// The message for a thinking level that cannot be used: the provider is
/// looked at first, then the level.
pub open spec fn thinking_message(thinking: Seq<char>, provider: Provider) -> Seq<char> {
    if provider != Provider::Gemini {
        "--thinking is only supported for Gemini models"@
    } else {
        "Unsupported thinking level '"@ + thinking
            + "'. Valid: none, minimal, low, medium, high"@
    }
}

/// Validate the thinking level parameter (Gemini only).
pub fn validate_thinking(thinking: &str, provider: Provider) -> (r: Result<(), String>)
    ensures
        r is Ok <==> provider == Provider::Gemini && is_supported_thinking(thinking@),
        r matches Err(e) ==> e@ == thinking_message(thinking@, provider),
{
    match provider {
        Provider::OpenAi => {
            return Err(owned("--thinking is only supported for Gemini models"));
        },
        Provider::Gemini => {},
    }
    if str_eq(thinking, "none") || str_eq(thinking, "minimal") || str_eq(thinking, "low")
        || str_eq(thinking, "medium") || str_eq(thinking, "high") {
        Ok(())
    } else {
        Err(
            concat3(
                "Unsupported thinking level '",
                thinking,
                "'. Valid: none, minimal, low, medium, high",
            ),
        )
    }
}

/// The file extension for an output format: `png` and `webp` keep their
/// name, everything else is written as `jpg`.
pub open spec fn extension_of(format: Seq<char>) -> Seq<char> {
    if format == "png"@ {
        "png"@
    } else if format == "webp"@ {
        "webp"@
    } else {
        "jpg"@
    }
}

/// Get the file extension for an output format.
pub fn format_extension(format: &str) -> (ext: &'static str)
    ensures
        ext@ == extension_of(format@),
{
    if str_eq(format, "png") {
        "png"
    } else if str_eq(format, "webp") {
        "webp"
    } else {
        "jpg"
    }
}

} // verus!
