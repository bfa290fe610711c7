//! The OpenAI image generation API.

use super::{EncodedImage, EncodedImageView};
use crate::params::{aspect_ratio_to_openai_size, openai_size};
use crate::ports::image_generator::ImageRequest;
use crate::text::{concat, str_eq};
use vstd::prelude::*;

verus! {

/// The size to ask for: OpenAI has pixel sizes in the 1K range only, so
/// the aspect ratio decides for `1K` and every other size is `auto`.
pub open spec fn size_for(size: Seq<char>, aspect_ratio: Seq<char>) -> Seq<char> {
    if size == "1K"@ {
        openai_size(aspect_ratio)
    } else {
        "auto"@
    }
}

/// The `size` field of a request.
pub fn request_size(request: &ImageRequest) -> (size: &'static str)
    ensures
        size@ == size_for(request.size@, request.aspect_ratio@),
{
    if str_eq(request.size.as_str(), "1K") {
        aspect_ratio_to_openai_size(request.aspect_ratio.as_str())
    } else {
        "auto"
    }
}

/// The value of the `Authorization` header for an API key.
pub fn authorization(api_key: &str) -> (header: String)
    ensures
        header@ == "Bearer "@ + api_key@,
{
    concat("Bearer ", api_key)
}

/// The MIME type of the images made for a request.
pub fn mime_type(request: &ImageRequest) -> (mime: String)
    ensures
        mime@ == "image/"@ + request.format@,
{
    concat("image/", request.format.as_str())
}

/// The images of an answer: each entry of its data, with the MIME type of
/// the request.
pub fn encoded_images(data: Vec<String>, request: &ImageRequest) -> (items: Vec<EncodedImage>)
    ensures
        items.len() == data.len(),
        forall|i: int|
            0 <= i < data.len() ==> (#[trigger] items[i])@ == (EncodedImageView {
                data: data[i]@,
                mime_type: "image/"@ + request.format@,
            }),
{
    let mut items: Vec<EncodedImage> = Vec::new();
    let mut i: usize = 0;
    while i < data.len()
        invariant
            i <= data.len(),
            items.len() == i,
            forall|j: int|
                0 <= j < i ==> (#[trigger] items[j])@ == (EncodedImageView {
                    data: data[j]@,
                    mime_type: "image/"@ + request.format@,
                }),
        decreases data.len() - i,
    {
        items.push(EncodedImage { data: data[i].clone(), mime_type: mime_type(request) });
        i += 1;
    }
    items
}

} // verus!
