//! Image generator port for AI image generation APIs.

use vstd::prelude::*;

verus! {

/// A request to generate images.
#[derive(Debug)]
pub struct ImageRequest {
    /// The resolved model identifier (e.g. `gemini-3.1-flash-image-preview`).
    pub model: String,
    /// The text prompt describing the desired image.
    pub prompt: String,
    /// Aspect ratio (e.g. `1:1`, `16:9`).
    pub aspect_ratio: String,
    /// Image size (`1K`, `2K`, `4K`).
    pub size: String,
    /// Quality level (`auto`, `low`, `medium`, `high`).
    pub quality: String,
    /// Output format (`jpeg`, `png`, `webp`).
    pub format: String,
    /// Number of images to generate.
    pub count: u32,
    /// Thinking level for Gemini models.
    pub thinking: Option<String>,
}

/// A single generated image.
#[derive(Debug)]
pub struct GeneratedImage {
    /// Raw image bytes.
    pub data: Vec<u8>,
    /// MIME type of the image (e.g. `image/jpeg`).
    pub mime_type: String,
}

/// The content of a [`GeneratedImage`].
pub struct GeneratedImageView {
    pub data: Seq<u8>,
    pub mime_type: Seq<char>,
}

impl View for GeneratedImage {
    type V = GeneratedImageView;

    open spec fn view(&self) -> GeneratedImageView {
        GeneratedImageView { data: self.data@, mime_type: self.mime_type@ }
    }
}

/// The contents of a sequence of images.
pub open spec fn image_views(images: Seq<GeneratedImage>) -> Seq<GeneratedImageView> {
    images.map_values(|image: GeneratedImage| image@)
}

/// Response containing generated images.
#[derive(Debug)]
pub struct ImageResponse {
    /// The generated images.
    pub images: Vec<GeneratedImage>,
}

} // verus!
