//! Unified error type for imagen.

use crate::text::{concat, concat3, decimal, decimal_string};
use vstd::prelude::*;
use vstd::string::*;

verus! {

/// Errors that can occur during image generation.
///
/// Failures of the network and of the file system are carried by their
/// text.
#[derive(Debug)]
pub enum ImageError {
    /// An API returned an error response.
    Api {
        /// HTTP status code.
        status: u16,
        /// Error message from the API.
        message: String,
    },
    /// A network error occurred.
    Network(String),
    /// An I/O error occurred.
    Io(String),
    /// Configuration error.
    Config(String),
    /// Invalid argument.
    InvalidArgument(String),
    /// Image format conversion error.
    ImageConversion(String),
    /// No API key configured for the provider.
    MissingApiKey {
        /// The provider name.
        provider: String,
        /// The environment variable name.
        env_var: String,
    },
}

impl ImageError {
    /// The text shown to the user for this error.
    pub open spec fn message_text(self) -> Seq<char> {
        match self {
            ImageError::Api { status, message } => "API error ("@ + decimal(status as nat) + "): "@
                + message@,
            ImageError::Network(detail) => "Network error: "@ + detail@,
            ImageError::Io(detail) => "I/O error: "@ + detail@,
            ImageError::Config(detail) => "Config error: "@ + detail@,
            ImageError::InvalidArgument(detail) => "Invalid argument: "@ + detail@,
            ImageError::ImageConversion(detail) => "Image conversion error: "@ + detail@,
            ImageError::MissingApiKey { provider, env_var } => "No API key for "@ + provider@
                + ". Set "@ + env_var@ + " or add it to config file."@,
        }
    }

    /// The text shown to the user for this error.
    pub fn message(&self) -> (text: String)
        ensures
            text@ == self.message_text(),
    {
        match self {
            ImageError::Api { status, message } => {
                let code = decimal_string(*status as u64);
                let mut text = concat3("API error (", code.as_str(), "): ");
                text.append(message.as_str());
                text
            },
            ImageError::Network(detail) => concat("Network error: ", detail.as_str()),
            ImageError::Io(detail) => concat("I/O error: ", detail.as_str()),
            ImageError::Config(detail) => concat("Config error: ", detail.as_str()),
            ImageError::InvalidArgument(detail) => concat("Invalid argument: ", detail.as_str()),
            ImageError::ImageConversion(detail) => concat(
                "Image conversion error: ",
                detail.as_str(),
            ),
            ImageError::MissingApiKey { provider, env_var } => {
                let mut text = concat3("No API key for ", provider.as_str(), ". Set ");
                text.append(env_var.as_str());
                text.append(" or add it to config file.");
                text
            },
        }
    }
}

} // verus!
