//! What holds of recording and replay, whatever is recorded.

use super::format::InteractionView;
use super::recorder::{captured, recorded_after, Call};
use super::replayer::{
    failure_message, joined_pairs, lemma_pairs_of_lists_recorded, lemma_records_for_push, pairs_of,
    records_for, Pair, ReplayFailure, ReplayView,
};
use crate::text::{debug_quoted, decimal};
use vstd::prelude::*;

verus! {

/// A tape whose records all belong to one pair is the queue of that pair.
pub proof fn lemma_single_pair_tape(tape: Seq<InteractionView>, port: Seq<char>, method: Seq<char>)
    requires
        forall|i: int| 0 <= i < tape.len() ==> tape[i].port == port && tape[i].method == method,
    ensures
        records_for(tape, port, method) == tape,
    decreases tape.len(),
{
    if tape.len() == 0 {
        reveal(Seq::filter);
    } else {
        lemma_single_pair_tape(tape.drop_last(), port, method);
        lemma_records_for_push(tape.drop_last(), tape.last(), port, method);
        assert(tape.drop_last().push(tape.last()) =~= tape);
    }
}

/// A pair has records exactly when some record of the tape carries it.
pub proof fn lemma_recorded_somewhere(tape: Seq<InteractionView>, port: Seq<char>, method: Seq<char>)
    ensures
        records_for(tape, port, method).len() > 0 <==> exists|i: int|
            0 <= i < tape.len() && (#[trigger] tape[i]).port == port && tape[i].method == method,
    decreases tape.len(),
{
    if tape.len() == 0 {
        reveal(Seq::filter);
    } else {
        let rest = tape.drop_last();
        lemma_recorded_somewhere(rest, port, method);
        lemma_records_for_push(rest, tape.last(), port, method);
        assert(rest.push(tape.last()) =~= tape);
        if records_for(rest, port, method).len() > 0 {
            let i = choose|i: int|
                0 <= i < rest.len() && (#[trigger] rest[i]).port == port && rest[i].method
                    == method;
            assert(tape[i] == rest[i]);
        }
        if exists|i: int|
            0 <= i < tape.len() && (#[trigger] tape[i]).port == port && tape[i].method == method {
            let i = choose|i: int|
                0 <= i < tape.len() && (#[trigger] tape[i]).port == port && tape[i].method
                    == method;
            if i < rest.len() {
                assert(rest[i] == tape[i]);
            }
        }
    }
}

/// Serving records of one pair moves the cursor of that pair and nothing
/// else.
pub proof fn lemma_advanced_by(state: ReplayView, port: Seq<char>, method: Seq<char>, n: nat)
    ensures
        state.advanced_by(port, method, n).tape == state.tape,
        state.advanced_by(port, method, n).cursor(port, method) == state.cursor(port, method) + n,
        forall|p: Seq<char>, m: Seq<char>|
            (p, m) != (port, method) ==> #[trigger] state.advanced_by(port, method, n).cursor(p, m)
                == state.cursor(p, m),
    decreases n,
{
    if n > 0 {
        lemma_advanced_by(state, port, method, (n - 1) as nat);
        let before = state.advanced_by(port, method, (n - 1) as nat);
        assert forall|p: Seq<char>, m: Seq<char>| (p, m) != (port, method) implies #[trigger]
            state.advanced_by(port, method, n).cursor(p, m) == state.cursor(p, m) by {
            assert(before.cursor(p, m) == state.cursor(p, m));
            assert(before.advanced(port, method).cursor(p, m) == before.cursor(p, m));
        }
    }
}

/// What a new recorder holds after some calls: one record for each call, in
/// the order of the calls, numbered from zero.
pub proof fn lemma_recorded_after(calls: Seq<Call>)
    ensures
        recorded_after(calls).len() == calls.len(),
        forall|i: int|
            0 <= i < calls.len() ==> #[trigger] recorded_after(calls)[i] == captured(
                i as nat,
                calls[i].port,
                calls[i].method,
                calls[i].input,
                calls[i].output,
            ),
    decreases calls.len(),
{
    if calls.len() > 0 {
        lemma_recorded_after(calls.drop_last());
    }
}

/// Replay follows the tape: from the start, after `k` records of a pair
/// were served, the next one served is the pair's record number `k` in the
/// order of the tape.
pub proof fn replay_follows_recording_order(
    tape: Seq<InteractionView>,
    port: Seq<char>,
    method: Seq<char>,
    k: nat,
)
    requires
        k < records_for(tape, port, method).len(),
    ensures
        ReplayView::start(tape).advanced_by(port, method, k).has_next(port, method),
        ReplayView::start(tape).advanced_by(port, method, k).next_record(port, method)
            == records_for(tape, port, method)[k as int],
{
    lemma_advanced_by(ReplayView::start(tape), port, method, k);
}

/// Order preservation: when `calls` are recorded on a new recorder, all for
/// the same port and method, replaying the cassette serves them back in the
/// order of the calls. The record served in place `k` carries the port,
/// method, input and output of call `k`, and `k` as its number.
pub proof fn recorded_calls_replay_in_order(
    calls: Seq<Call>,
    port: Seq<char>,
    method: Seq<char>,
    k: nat,
)
    requires
        forall|i: int| 0 <= i < calls.len() ==> calls[i].port == port && calls[i].method == method,
        k < calls.len(),
    ensures
        ReplayView::start(recorded_after(calls)).advanced_by(port, method, k).has_next(
            port,
            method,
        ),
        ReplayView::start(recorded_after(calls)).advanced_by(port, method, k).next_record(
            port,
            method,
        ) == (InteractionView {
            seq: k as u64,
            port,
            method,
            input: calls[k as int].input,
            output: calls[k as int].output,
        }),
{
    let tape = recorded_after(calls);
    lemma_recorded_after(calls);
    assert forall|i: int| 0 <= i < tape.len() implies tape[i].port == port && tape[i].method
        == method by {
        assert(tape[i] == captured(
            i as nat,
            calls[i].port,
            calls[i].method,
            calls[i].input,
            calls[i].output,
        ));
    }
    lemma_single_pair_tape(tape, port, method);
    replay_follows_recording_order(tape, port, method, k);
}

/// Partition independence at recording: a record for one pair does not
/// enter the queue of another, so two pairs recorded in turn keep each
/// their own order.
pub proof fn recording_leaves_other_pairs(
    tape: Seq<InteractionView>,
    record: InteractionView,
    port: Seq<char>,
    method: Seq<char>,
)
    requires
        (record.port, record.method) != (port, method),
    ensures
        records_for(tape.push(record), port, method) == records_for(tape, port, method),
{
    lemma_records_for_push(tape, record, port, method);
}

/// Partition independence at replay: serving a record of one pair changes
/// neither the queue nor the cursor of another, and what the other pair is
/// served next stays the same. Two pairs can be served in either order.
pub proof fn serving_leaves_other_pairs(
    state: ReplayView,
    port: Seq<char>,
    method: Seq<char>,
    other_port: Seq<char>,
    other_method: Seq<char>,
)
    requires
        (port, method) != (other_port, other_method),
    ensures
        state.advanced(port, method).queue(other_port, other_method) == state.queue(
            other_port,
            other_method,
        ),
        state.advanced(port, method).cursor(other_port, other_method) == state.cursor(
            other_port,
            other_method,
        ),
        state.advanced(port, method).has_next(other_port, other_method) == state.has_next(
            other_port,
            other_method,
        ),
        state.advanced(port, method).next_record(other_port, other_method) == state.next_record(
            other_port,
            other_method,
        ),
        state.advanced(port, method).advanced(other_port, other_method) == state.advanced(
            other_port,
            other_method,
        ).advanced(port, method),
{
    let one = state.advanced(port, method).advanced(other_port, other_method);
    let two = state.advanced(other_port, other_method).advanced(port, method);
    assert(one.served =~= two.served);
}

/// Exhaustion: once all `n` records of a pair have been served, `n` at
/// least one, no further record is served for it, and the failure and its
/// message name `n`.
pub proof fn exhausted_pair_reports_count(
    tape: Seq<InteractionView>,
    port: Seq<char>,
    method: Seq<char>,
)
    requires
        records_for(tape, port, method).len() > 0,
    ensures
        ({
            let n = records_for(tape, port, method).len();
            let state = ReplayView::start(tape).advanced_by(port, method, n);
            &&& !state.has_next(port, method)
            &&& state.failure(port, method) == (ReplayFailure::Exhausted {
                port,
                method,
                count: n,
            })
            &&& failure_message(state.failure(port, method)) == "Cassette exhausted: all "@
                + decimal(n) + " interactions for port="@ + debug_quoted(port) + " method="@
                + debug_quoted(method) + " have been consumed."@
        }),
{
    lemma_advanced_by(
        ReplayView::start(tape),
        port,
        method,
        records_for(tape, port, method).len(),
    );
}

/// Unknown pair: a pair that was never recorded is served nothing, in any
/// state of the replay. The failure lists the pairs of the tape, which are
/// the pairs of its records and no others, and the message writes them out.
pub proof fn unknown_pair_lists_recorded_pairs(
    state: ReplayView,
    port: Seq<char>,
    method: Seq<char>,
)
    requires
        forall|i: int|
            0 <= i < state.tape.len() ==> ((#[trigger] state.tape[i]).port, state.tape[i].method)
                != (port, method),
    ensures
        !state.has_next(port, method),
        state.failure(port, method) == (ReplayFailure::UnknownPair {
            port,
            method,
            available: pairs_of(state.tape),
        }),
        forall|i: int|
            0 <= i < state.tape.len() ==> pairs_of(state.tape).contains(
                ((#[trigger] state.tape[i]).port, state.tape[i].method),
            ),
        forall|pair: Pair| #[trigger]
            pairs_of(state.tape).contains(pair) ==> exists|i: int|
                0 <= i < state.tape.len() && ((#[trigger] state.tape[i]).port, state.tape[i].method)
                    == pair,
        failure_message(state.failure(port, method))
            == "Cassette exhausted: no interactions recorded for port="@ + debug_quoted(port)
            + " method="@ + debug_quoted(method) + ". Available port::method pairs: ["@
            + joined_pairs(pairs_of(state.tape)) + "]"@,
{
    let tape = state.tape;
    lemma_recorded_somewhere(tape, port, method);
    assert forall|i: int| 0 <= i < tape.len() implies pairs_of(tape).contains(
        ((#[trigger] tape[i]).port, tape[i].method),
    ) by {
        lemma_recorded_somewhere(tape, tape[i].port, tape[i].method);
        lemma_pairs_of_lists_recorded(tape, tape[i].port, tape[i].method);
    }
    assert forall|pair: Pair| #[trigger] pairs_of(tape).contains(pair) implies exists|i: int|
        0 <= i < tape.len() && ((#[trigger] tape[i]).port, tape[i].method) == pair by {
        lemma_pairs_of_lists_recorded(tape, pair.0, pair.1);
        lemma_recorded_somewhere(tape, pair.0, pair.1);
    }
}

} // verus!
