//! Capturing the outcome of calls on a cassette.

pub mod image_generator;

use crate::cassette::recorder::{captured, CassetteRecorder};
use crate::json::{is_tagged, is_text, tagged, text_value};
use vstd::prelude::*;

verus! {

/// `output` is the recorded form of `outcome`: a success is the object
/// `{"Ok": payload}`, a failure the object `{"Err": message}`.
pub open spec fn encodes(
    output: serde_json::Value,
    outcome: Result<serde_json::Value, Seq<char>>,
) -> bool {
    match outcome {
        Ok(payload) => is_tagged(output, "Ok"@, payload),
        Err(message) => exists|text: serde_json::Value|
            is_text(text, message) && #[trigger] is_tagged(output, "Err"@, text),
    }
}

/// What stands for an outcome in specifications: the payload of a success,
/// the characters of a failure's message.
pub open spec fn outcome_view(outcome: Result<serde_json::Value, String>) -> Result<
    serde_json::Value,
    Seq<char>,
> {
    match outcome {
        Ok(payload) => Ok(payload),
        Err(message) => Err(message@),
    }
}

/// The recorded form of an outcome.
pub fn encode_outcome(outcome: Result<serde_json::Value, String>) -> (output: serde_json::Value)
    ensures
        encodes(output, outcome_view(outcome)),
{
    match outcome {
        Ok(payload) => tagged("Ok", payload),
        Err(message) => {
            let text = text_value(message.as_str());
            let output = tagged("Err", text);
            assert(is_tagged(output, "Err"@, text));
            output
        },
    }
}

/// Record the outcome of a call: the serialized request as it is, the
/// outcome in its recorded form.
pub fn record_result(
    recorder: &mut CassetteRecorder,
    port: &str,
    method: &str,
    input: serde_json::Value,
    outcome: Result<serde_json::Value, String>,
)
    ensures
        exists|output: serde_json::Value|
            encodes(output, outcome_view(outcome)) && final(recorder).recorded() == old(
                recorder,
            ).recorded().push(
                #[trigger] captured(old(recorder).recorded().len(), port@, method@, input, output),
            ),
        final(recorder).path() == old(recorder).path(),
        final(recorder).name() == old(recorder).name(),
        final(recorder).commit() == old(recorder).commit(),
{
    let output = encode_outcome(outcome);
    recorder.record(port, method, input, output);
    assert(final(recorder).recorded() == old(recorder).recorded().push(
        captured(old(recorder).recorded().len(), port@, method@, input, output),
    ));
}

} // verus!
