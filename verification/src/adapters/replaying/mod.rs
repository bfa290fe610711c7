//! Reading recorded outcomes back from a cassette.

pub mod image_generator;

use crate::adapters::recording::encodes;
use crate::cassette::recorder::{recorded_after, Call};
use crate::cassette::replayer::{CassetteReplayer, ReplayError, ReplayView};
use crate::cassette::theorems::recorded_calls_replay_in_order;
use crate::json::{as_text, json_member, json_text, member};
use crate::text::owned;
use vstd::prelude::*;

verus! {

/// The outcome that a recorded output stands for. Only the members `Err`
/// and `Ok` are tags. An output tagged `Err` is a failure; its message is
/// the tagged text, or `replayed error` when that is no string. An output
/// tagged `Ok`, and not `Err`, is a success with the tagged payload. An
/// output with neither tag is itself the payload of a success.
pub open spec fn decoded(output: serde_json::Value) -> Result<serde_json::Value, Seq<char>> {
    match json_member(output, "Err"@) {
        Some(failure) => Err(
            match json_text(failure) {
                Some(message) => message,
                None => "replayed error"@,
            },
        ),
        None => match json_member(output, "Ok"@) {
            Some(payload) => Ok(payload),
            None => Ok(output),
        },
    }
}

/// Retrieve the next recorded output for a given port and method, or the
/// reason why there is none.
pub fn try_next_output(replayer: &mut CassetteReplayer, port: &str, method: &str) -> (served:
    Result<serde_json::Value, ReplayError>)
    ensures
        match served {
            Ok(output) => {
                &&& old(replayer)@.has_next(port@, method@)
                &&& output == old(replayer)@.next_record(port@, method@).output
                &&& final(replayer)@ == old(replayer)@.advanced(port@, method@)
            },
            Err(error) => {
                &&& !old(replayer)@.has_next(port@, method@)
                &&& error@ == old(replayer)@.failure(port@, method@)
                &&& final(replayer)@ == old(replayer)@
            },
        },
{
    match replayer.try_next_interaction(port, method) {
        Ok(record) => Ok(record.output.clone()),
        Err(error) => Err(error),
    }
}

/// Retrieve the next recorded output for a given port and method.
///
/// The pair must have a record left.
pub fn next_output(replayer: &mut CassetteReplayer, port: &str, method: &str) -> (output:
    serde_json::Value)
    requires
        old(replayer)@.has_next(port@, method@),
    ensures
        output == old(replayer)@.next_record(port@, method@).output,
        final(replayer)@ == old(replayer)@.advanced(port@, method@),
{
    replayer.next_interaction(port, method).output.clone()
}

/// Read a replayed output as the outcome of the call: the payload to
/// deserialize, or the message of the recorded failure.
pub fn replay_result(output: serde_json::Value) -> (outcome: Result<serde_json::Value, String>)
    ensures
        match outcome {
            Ok(payload) => decoded(output) == Ok::<serde_json::Value, Seq<char>>(payload),
            Err(message) => decoded(output) == Err::<serde_json::Value, Seq<char>>(message@),
        },
{
    if let Some(failure) = member(&output, "Err") {
        return Err(
            match as_text(failure) {
                Some(message) => owned(message),
                None => owned("replayed error"),
            },
        );
    }
    if let Some(payload) = member(&output, "Ok") {
        return Ok(payload.clone());
    }
    Ok(output)
}

/// Tagging round trip: an output that encodes an outcome decodes to that
/// outcome. A recorded success is read back as a success with the same
/// payload, a recorded failure as a failure with the same message.
pub proof fn recorded_outcome_reads_back(
    output: serde_json::Value,
    outcome: Result<serde_json::Value, Seq<char>>,
)
    requires
        encodes(output, outcome),
    ensures
        decoded(output) == outcome,
{
    reveal_strlit("Ok");
    reveal_strlit("Err");
    assert("Ok"@ != "Err"@) by {
        assert("Ok"@.len() == 2 && "Err"@.len() == 3);
    }
}

/// A success and a failure, recorded in this order for one port and
/// method, replay in this order: the first record served decodes to the
/// success with its payload, the second to the failure with its message.
pub proof fn success_then_failure_replay_in_order(
    calls: Seq<Call>,
    port: Seq<char>,
    method: Seq<char>,
    payload: serde_json::Value,
    message: Seq<char>,
)
    requires
        calls.len() == 2,
        forall|i: int| 0 <= i < calls.len() ==> calls[i].port == port && calls[i].method == method,
        encodes(calls[0].output, Ok(payload)),
        encodes(calls[1].output, Err(message)),
    ensures
        ({
            let first = ReplayView::start(recorded_after(calls));
            let second = first.advanced(port, method);
            &&& first.has_next(port, method)
            &&& decoded(first.next_record(port, method).output) == Ok::<
                serde_json::Value,
                Seq<char>,
            >(payload)
            &&& second.has_next(port, method)
            &&& decoded(second.next_record(port, method).output) == Err::<
                serde_json::Value,
                Seq<char>,
            >(message)
        }),
{
    let first = ReplayView::start(recorded_after(calls));
    assert(first.advanced_by(port, method, 0) == first);
    assert(first.advanced_by(port, method, 1) == first.advanced(port, method)) by {
        reveal_with_fuel(ReplayView::advanced_by, 2);
    }
    recorded_calls_replay_in_order(calls, port, method, 0);
    recorded_calls_replay_in_order(calls, port, method, 1);
    recorded_outcome_reads_back(calls[0].output, Ok(payload));
    recorded_outcome_reads_back(calls[1].output, Err(message));
}

} // verus!
