//! The command line of the tool, as values.

use crate::text::owned;
use vstd::prelude::*;

verus! {

/// AI image generation CLI, a unified interface for Gemini and OpenAI.
#[derive(Debug)]
pub struct Cli {
    /// Text prompt describing the desired image.
    pub prompt: Option<String>,
    /// Path to a file containing the prompt text.
    pub prompt_file: Option<String>,
    /// Model name or short alias.
    pub model: String,
    /// Aspect ratio (e.g. 1:1, 16:9, 9:16).
    pub aspect_ratio: String,
    /// Image size: 1K, 2K, 4K.
    pub size: String,
    /// Quality: auto, low, medium, high.
    pub quality: String,
    /// Output format: jpeg, png, webp.
    pub format: String,
    /// Output file path (generated if not specified).
    pub output: Option<String>,
    /// Number of images to generate.
    pub count: u32,
    /// Config file path override.
    pub config: Option<String>,
    /// Thinking level (Gemini only): none, minimal, low, medium, high.
    pub thinking: Option<String>,
    /// Verbose output.
    pub verbose: bool,
}

/// Where the prompt comes from.
#[derive(Debug)]
pub enum PromptSource {
    /// The prompt itself, given as an argument.
    Inline(String),
    /// The path of a file that holds the prompt.
    File(String),
}

/// What stands for a [`PromptSource`] in specifications.
pub enum PromptSourceView {
    Inline(Seq<char>),
    File(Seq<char>),
}

impl View for PromptSource {
    type V = PromptSourceView;

    open spec fn view(&self) -> PromptSourceView {
        match self {
            PromptSource::Inline(text) => PromptSourceView::Inline(text@),
            PromptSource::File(path) => PromptSourceView::File(path@),
        }
    }
}

impl Cli {
    /// The source of the prompt: the argument first, then the file.
    pub open spec fn prompt_source(self) -> Option<PromptSourceView> {
        match self.prompt {
            Some(text) => Some(PromptSourceView::Inline(text@)),
            None => match self.prompt_file {
                Some(path) => Some(PromptSourceView::File(path@)),
                None => None,
            },
        }
    }

    /// Resolve the prompt from either the positional argument or the file
    /// flag.
    ///
    /// Fails, with the message to show, if neither is provided.
    pub fn resolve_prompt(&self) -> (source: Result<PromptSource, String>)
        ensures
            match source {
                Ok(found) => self.prompt_source() == Some(found@),
                Err(message) => self.prompt_source() is None && message@
                    == "Provide a prompt string or use -p/--prompt-file"@,
            },
    {
        if let Some(text) = &self.prompt {
            Ok(PromptSource::Inline(text.clone()))
        } else if let Some(path) = &self.prompt_file {
            Ok(PromptSource::File(path.clone()))
        } else {
            Err(owned("Provide a prompt string or use -p/--prompt-file"))
        }
    }
}

} // verus!
