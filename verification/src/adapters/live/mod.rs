//! Talking to a live service: what is sent, and how the answer is read.
//!
//! The exchange itself is left to the caller. It hands over the status and
//! the body of the answer and the images found in the body, still encoded.

pub mod gemini;
pub mod openai;

use base64::Engine;
use crate::error::ImageError;
use crate::ports::image_generator::{
    image_views, GeneratedImage, GeneratedImageView, ImageResponse,
};
use crate::text::{concat, owned};
use vstd::prelude::*;
use vstd::string::*;
use vstd::utf8::{decode_utf8, encode_utf8, is_char_boundary};

verus! {

/// What decoding a text as base64 gives, with the standard alphabet and
/// padding: the bytes, or the description of what is wrong with the text.
pub uninterp spec fn base64_decoded(text: Seq<char>) -> Result<Seq<u8>, Seq<char>>;

/// Decodes with `Engine::decode` of `base64::engine::general_purpose::STANDARD`
/// and puts a failure into words. The result depends on the text alone.
#[verifier::external_body]
fn decode_base64(text: &str) -> (decoded: Result<Vec<u8>, String>)
    ensures
        match decoded {
            Ok(bytes) => base64_decoded(text@) == Ok::<Seq<u8>, Seq<char>>(bytes@),
            Err(reason) => base64_decoded(text@) == Err::<Seq<u8>, Seq<char>>(reason@),
        },
{
    match base64::engine::general_purpose::STANDARD.decode(text) {
        Ok(bytes) => Ok(bytes),
        Err(error) => Err(error.to_string()),
    }
}

/// An image as a service returns it.
#[derive(Debug)]
pub struct EncodedImage {
    /// The image bytes in base64.
    pub data: String,
    /// MIME type of the image.
    pub mime_type: String,
}

/// The content of an [`EncodedImage`].
pub struct EncodedImageView {
    pub data: Seq<char>,
    pub mime_type: Seq<char>,
}

impl View for EncodedImage {
    type V = EncodedImageView;

    open spec fn view(&self) -> EncodedImageView {
        EncodedImageView { data: self.data@, mime_type: self.mime_type@ }
    }
}

/// The contents of a sequence of encoded images.
pub open spec fn encoded_views(items: Seq<EncodedImage>) -> Seq<EncodedImageView> {
    items.map_values(|item: EncodedImage| item@)
}

/// The images that the items decode to, in order, or what is wrong with
/// the first item that does not decode.
pub open spec fn decoded_images(items: Seq<EncodedImageView>) -> Result<
    Seq<GeneratedImageView>,
    Seq<char>,
>
    decreases items.len(),
{
    if items.len() == 0 {
        Ok(Seq::empty())
    } else {
        match decoded_images(items.drop_last()) {
            Err(reason) => Err(reason),
            Ok(images) => match base64_decoded(items.last().data) {
                Ok(data) => Ok(
                    images.push(GeneratedImageView { data, mime_type: items.last().mime_type }),
                ),
                Err(reason) => Err(reason),
            },
        }
    }
}

/// Statuses that stand for success.
pub open spec fn is_success(status: u16) -> bool {
    200 <= status < 300
}

/// The error for an answer whose status is no success: it carries the
/// status and the body.
pub fn check_status(status: u16, body: &str) -> (checked: Result<(), ImageError>)
    ensures
        checked is Ok <==> is_success(status),
        checked matches Err(error) ==> (error matches ImageError::Api { status: code, message }
            && code == status && message@ == body@),
{
    if 200 <= status && status < 300 {
        Ok(())
    } else {
        Err(ImageError::Api { status, message: owned(body) })
    }
}

/// The error for a body that could not be parsed; `detail` says why.
pub fn parse_failure(detail: &str) -> (error: ImageError)
    ensures
        error matches ImageError::Api { status, message } && status == 200 && message@
            == "Failed to parse response: "@ + detail@,
{
    ImageError::Api { status: 200, message: concat("Failed to parse response: ", detail) }
}

/// Decode the images of an answer. The first item that is no base64 ends
/// the work with an error that says what is wrong with it.
pub fn decode_images(items: &Vec<EncodedImage>) -> (decoded: Result<Vec<GeneratedImage>, ImageError>)
    ensures
        match decoded {
            Ok(images) => decoded_images(encoded_views(items@)) == Ok::<
                Seq<GeneratedImageView>,
                Seq<char>,
            >(image_views(images@)),
            Err(error) => error matches ImageError::Api { status, message } && status == 200 && (
            decoded_images(encoded_views(items@)) matches Err(reason) && message@
                == "Failed to decode base64: "@ + reason),
        },
{
    let ghost all = encoded_views(items@);
    let mut images: Vec<GeneratedImage> = Vec::new();
    let mut i: usize = 0;
    assert(all.take(0) =~= Seq::<EncodedImageView>::empty());
    assert(image_views(images@) =~= Seq::<GeneratedImageView>::empty());
    while i < items.len()
        invariant
            i <= items.len(),
            all == encoded_views(items@),
            decoded_images(all.take(i as int)) == Ok::<Seq<GeneratedImageView>, Seq<char>>(
                image_views(images@),
            ),
        decreases items.len() - i,
    {
        let ghost done = image_views(images@);
        assert(all.take(i + 1).drop_last() =~= all.take(i as int));
        assert(all.take(i + 1).last() == items@[i as int]@);
        match decode_base64(items[i].data.as_str()) {
            Ok(data) => {
                let image = GeneratedImage { data, mime_type: items[i].mime_type.clone() };
                images.push(image);
                assert(image_views(images@) =~= done.push(image@));
            },
            Err(reason) => {
                proof {
                    lemma_decoding_stays_failed(all, i + 1);
                }
                return Err(
                    ImageError::Api {
                        status: 200,
                        message: concat("Failed to decode base64: ", reason.as_str()),
                    },
                );
            },
        }
        i += 1;
    }
    assert(all.take(items.len() as int) =~= all);
    Ok(images)
}

/// Once an item fails to decode, the items behind it change nothing.
pub proof fn lemma_decoding_stays_failed(items: Seq<EncodedImageView>, n: int)
    requires
        0 <= n <= items.len(),
        decoded_images(items.take(n)) is Err,
    ensures
        decoded_images(items) == decoded_images(items.take(n)),
    decreases items.len() - n,
{
    if n == items.len() {
        assert(items.take(n) =~= items);
    } else {
        assert(items.take(n + 1).drop_last() =~= items.take(n));
        lemma_decoding_stays_failed(items, n + 1);
    }
}

/// The part of a body that is shown in a message: all of a body of up to
/// 500 bytes, else its first 500 bytes and three dots.
pub open spec fn body_excerpt(body: Seq<char>) -> Seq<char> {
    if encode_utf8(body).len() > 500 {
        decode_utf8(encode_utf8(body).subrange(0, 500)) + "..."@
    } else {
        body
    }
}

/// Whether the excerpt of a body can be taken: a longer body must not have
/// a character that lies across its byte 500.
pub open spec fn can_excerpt(body: Seq<char>) -> bool {
    encode_utf8(body).len() > 500 ==> is_char_boundary(encode_utf8(body), 500)
}

/// Whether the excerpt of a body can be taken.
pub fn excerpt_is_defined(body: &str) -> (defined: bool)
    ensures
        defined == can_excerpt(body@),
{
    body.as_bytes().len() <= 500 || body.is_char_boundary(500)
}

/// The error for an answer without images; it shows the body's excerpt.
pub fn no_images(body: &str) -> (error: ImageError)
    requires
        can_excerpt(body@),
    ensures
        error matches ImageError::Api { status, message } && status == 200 && message@
            == "No images in response. Body: "@ + body_excerpt(body@),
{
    let mut message = owned("No images in response. Body: ");
    if body.as_bytes().len() > 500 {
        let (head, _) = body.split_at(500);
        proof {
            vstd::utf8::encode_utf8_decode_utf8(head@);
        }
        message.append(head);
        message.append("...");
    } else {
        message.append(body);
    }
    ImageError::Api { status: 200, message }
}

/// Read the images of an answer: every item must decode, and there must be
/// at least one image.
///
/// The excerpt of the body is needed when there is no item.
pub fn collect_images(items: &Vec<EncodedImage>, body: &str) -> (read: Result<
    ImageResponse,
    ImageError,
>)
    requires
        items.len() == 0 ==> can_excerpt(body@),
    ensures
        match read {
            Ok(response) => items.len() > 0 && decoded_images(encoded_views(items@)) == Ok::<
                Seq<GeneratedImageView>,
                Seq<char>,
            >(image_views(response.images@)),
            Err(error) => error matches ImageError::Api { status, message } && status == 200 && (
            if items.len() == 0 {
                message@ == "No images in response. Body: "@ + body_excerpt(body@)
            } else {
                decoded_images(encoded_views(items@)) matches Err(reason) && message@
                    == "Failed to decode base64: "@ + reason
            }),
        },
{
    if items.len() == 0 {
        return Err(no_images(body));
    }
    match decode_images(items) {
        Ok(images) => Ok(ImageResponse { images }),
        Err(error) => Err(error),
    }
}

} // verus!
