//! Recording adapter for the image generator port.

use super::{encodes, outcome_view, record_result};
use crate::adapters::replaying::image_generator::{method_name, port_name};
use crate::cassette::recorder::{captured, CassetteRecorder};
use vstd::prelude::*;

verus! {

/// Record one call of the image generator: the serialized request and what
/// came of it, under the generator's port and method. The outcome itself is
/// left as it is; the caller hands it on unchanged.
pub fn record_generation(
    recorder: &mut CassetteRecorder,
    request: serde_json::Value,
    outcome: Result<serde_json::Value, String>,
)
    ensures
        exists|output: serde_json::Value|
            encodes(output, outcome_view(outcome)) && final(recorder).recorded() == old(
                recorder,
            ).recorded().push(
                #[trigger] captured(
                    old(recorder).recorded().len(),
                    port_name(),
                    method_name(),
                    request,
                    output,
                ),
            ),
        final(recorder).path() == old(recorder).path(),
        final(recorder).name() == old(recorder).name(),
        final(recorder).commit() == old(recorder).commit(),
{
    record_result(recorder, "image_generator", "generate", request, outcome);
    proof {
        let before = old(recorder).recorded();
        let output = choose|output: serde_json::Value|
            encodes(output, outcome_view(outcome)) && recorder.recorded() == before.push(
                #[trigger] captured(
                    before.len(),
                    "image_generator"@,
                    "generate"@,
                    request,
                    output,
                ),
            );
        assert(recorder.recorded() == before.push(
            captured(before.len(), port_name(), method_name(), request, output),
        ));
    }
}

} // verus!
