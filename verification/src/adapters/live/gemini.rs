//! The Gemini image generation API.

use super::{EncodedImage, EncodedImageView};
use crate::config::text_of;
use crate::ports::image_generator::ImageRequest;
use crate::text::{concat3, to_upper, uppercased};
use vstd::prelude::*;

verus! {

/// The address for calls to a model.
pub open spec fn endpoint_text(model: Seq<char>) -> Seq<char> {
    "https://generativelanguage.googleapis.com/v1beta/models"@ + "/"@ + model
        + ":generateContent"@
}

/// The address that a request is sent to.
pub fn endpoint(request: &ImageRequest) -> (url: String)
    ensures
        url@ == endpoint_text(request.model@),
{
    let mut url = concat3(
        "https://generativelanguage.googleapis.com/v1beta/models",
        "/",
        request.model.as_str(),
    );
    url.append(":generateContent");
    url
}

/// The thinking level as the service wants it: in upper case.
pub open spec fn level_for(thinking: Option<String>) -> Option<Seq<char>> {
    match thinking {
        Some(level) => Some(uppercased(level@)),
        None => None,
    }
}

/// The `thinkingLevel` of a request, where it asks for one.
pub fn thinking_level(request: &ImageRequest) -> (level: Option<String>)
    ensures
        text_of(level) == level_for(request.thinking),
{
    match &request.thinking {
        Some(level) => Some(to_upper(level.as_str())),
        None => None,
    }
}

/// The inline data of the parts, in order; parts without inline data are
/// passed over.
pub open spec fn inline_of(parts: Seq<Option<EncodedImage>>) -> Seq<EncodedImageView>
    decreases parts.len(),
{
    if parts.len() == 0 {
        Seq::empty()
    } else {
        match parts.last() {
            Some(image) => inline_of(parts.drop_last()).push(image@),
            None => inline_of(parts.drop_last()),
        }
    }
}

/// The inline data of all candidates, candidate after candidate.
pub open spec fn inline_of_all(candidates: Seq<Vec<Option<EncodedImage>>>) -> Seq<
    EncodedImageView,
>
    decreases candidates.len(),
{
    if candidates.len() == 0 {
        Seq::empty()
    } else {
        inline_of_all(candidates.drop_last()) + inline_of(candidates.last()@)
    }
}

/// The images of an answer: the inline data of the parts of its
/// candidates, in the order of the answer.
pub fn inline_images(candidates: &Vec<Vec<Option<EncodedImage>>>) -> (items: Vec<EncodedImage>)
    ensures
        super::encoded_views(items@) == inline_of_all(candidates@),
{
    let mut items: Vec<EncodedImage> = Vec::new();
    let mut c: usize = 0;
    assert(candidates@.take(0) =~= Seq::<Vec<Option<EncodedImage>>>::empty());
    assert(super::encoded_views(items@) =~= Seq::<EncodedImageView>::empty());
    while c < candidates.len()
        invariant
            c <= candidates.len(),
            super::encoded_views(items@) == inline_of_all(candidates@.take(c as int)),
        decreases candidates.len() - c,
    {
        let parts = &candidates[c];
        let ghost before = super::encoded_views(items@);
        let mut p: usize = 0;
        assert(parts@.take(0) =~= Seq::<Option<EncodedImage>>::empty());
        assert(before + Seq::<EncodedImageView>::empty() =~= before);
        while p < parts.len()
            invariant
                p <= parts.len(),
                super::encoded_views(items@) == before + inline_of(parts@.take(p as int)),
            decreases parts.len() - p,
        {
            assert(parts@.take(p + 1).drop_last() =~= parts@.take(p as int));
            assert(parts@.take(p + 1).last() == parts@[p as int]);
            if let Some(image) = &parts[p] {
                let ghost done = super::encoded_views(items@);
                let item = EncodedImage {
                    data: image.data.clone(),
                    mime_type: image.mime_type.clone(),
                };
                items.push(item);
                assert(super::encoded_views(items@) =~= done.push(item@));
                assert(item@ == image@);
                assert((before + inline_of(parts@.take(p as int))).push(image@) =~= before
                    + inline_of(parts@.take(p as int)).push(image@));
            }
            p += 1;
        }
        assert(parts@.take(parts.len() as int) =~= parts@);
        assert(candidates@.take(c + 1).drop_last() =~= candidates@.take(c as int));
        assert(candidates@.take(c + 1).last() == candidates@[c as int]);
        c += 1;
    }
    assert(candidates@.take(candidates.len() as int) =~= candidates@);
    items
}

} // verus!
