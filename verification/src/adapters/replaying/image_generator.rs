//! Replaying adapter for the image generator port.

use super::{decoded, replay_result, try_next_output};
use crate::cassette::replayer::{CassetteReplayer, ReplayError, ReplayView};
use crate::error::ImageError;
use crate::ports::image_generator::ImageRequest;
use vstd::prelude::*;

verus! {

/// The port that the image generator records under.
pub open spec fn port_name() -> Seq<char> {
    "image_generator"@
}

/// The method that the image generator records under.
pub open spec fn method_name() -> Seq<char> {
    "generate"@
}

/// The result of a replayed call for an outcome read from the cassette: the
/// payload of a success, or an API error with status 0 for a failure.
pub open spec fn replayed(
    served: Result<serde_json::Value, ImageError>,
    outcome: Result<serde_json::Value, Seq<char>>,
) -> bool {
    match served {
        Ok(payload) => outcome == Ok::<serde_json::Value, Seq<char>>(payload),
        Err(error) => error matches ImageError::Api { status, message } && status == 0
            && outcome == Err::<serde_json::Value, Seq<char>>(message@),
    }
}

/// Serves recorded image generation results from a cassette.
pub struct ReplayingImageGenerator {
    replayer: CassetteReplayer,
}

impl View for ReplayingImageGenerator {
    type V = ReplayView;

    closed spec fn view(&self) -> ReplayView {
        self.replayer@
    }
}

impl ReplayingImageGenerator {
    /// Create a replaying generator backed by the given replayer.
    pub fn new(replayer: CassetteReplayer) -> (generator: Self)
        ensures
            generator@ == replayer@,
    {
        ReplayingImageGenerator { replayer }
    }

    /// Answer a request from the cassette, or say why the cassette has no
    /// answer.
    ///
    /// The request is not looked at. The next record of the generator's
    /// pair is consumed and its output read: a recorded success gives the
    /// serialized response, a recorded failure an API error with status 0.
    pub fn try_generate(&mut self, request: &ImageRequest) -> (answer: Result<
        Result<serde_json::Value, ImageError>,
        ReplayError,
    >)
        ensures
            match answer {
                Ok(served) => {
                    &&& old(self)@.has_next(port_name(), method_name())
                    &&& replayed(
                        served,
                        decoded(old(self)@.next_record(port_name(), method_name()).output),
                    )
                    &&& final(self)@ == old(self)@.advanced(port_name(), method_name())
                },
                Err(error) => {
                    &&& !old(self)@.has_next(port_name(), method_name())
                    &&& error@ == old(self)@.failure(port_name(), method_name())
                    &&& final(self)@ == old(self)@
                },
            },
    {
        match try_next_output(&mut self.replayer, "image_generator", "generate") {
            Ok(output) => Ok(
                match replay_result(output) {
                    Ok(payload) => Ok(payload),
                    Err(message) => Err(ImageError::Api { status: 0, message }),
                },
            ),
            Err(error) => Err(error),
        }
    }

    /// Answer a request from the cassette.
    ///
    /// The cassette must have a record left for the generator's pair.
    pub fn generate(&mut self, request: &ImageRequest) -> (served: Result<
        serde_json::Value,
        ImageError,
    >)
        requires
            old(self)@.has_next(port_name(), method_name()),
        ensures
            replayed(served, decoded(old(self)@.next_record(port_name(), method_name()).output)),
            final(self)@ == old(self)@.advanced(port_name(), method_name()),
    {
        match self.try_generate(request) {
            Ok(served) => served,
            Err(_) => vstd::pervasive::unreached(),
        }
    }
}

} // verus!
