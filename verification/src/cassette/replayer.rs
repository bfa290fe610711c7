//! Replays recorded interactions from a cassette.

use super::format::{contents, Cassette, Interaction, InteractionView};
use crate::text::{concat3, debug_quoted, decimal, decimal_string, owned, quote, str_eq};
use vstd::prelude::*;
use vstd::string::*;

verus! {

/// A (port, method) pair.
pub type Pair = (Seq<char>, Seq<char>);

/// The records of `tape` for one (port, method) pair, in the order of the
/// tape.
pub open spec fn records_for(tape: Seq<InteractionView>, port: Seq<char>, method: Seq<char>) -> Seq<
    InteractionView,
> {
    tape.filter(|r: InteractionView| r.port == port && r.method == method)
}

/// The (port, method) pairs that occur on `tape`, each once, in the order
/// of their first record.
pub open spec fn pairs_of(tape: Seq<InteractionView>) -> Seq<Pair>
    decreases tape.len(),
{
    if tape.len() == 0 {
        Seq::empty()
    } else {
        let before = pairs_of(tape.drop_last());
        let pair = (tape.last().port, tape.last().method);
        if before.contains(pair) {
            before
        } else {
            before.push(pair)
        }
    }
}

/// Why no record could be served.
pub enum ReplayFailure {
    /// The tape has no record for the pair; `available` are the pairs it has.
    UnknownPair { port: Seq<char>, method: Seq<char>, available: Seq<Pair> },
    /// All `count` records of the pair have been served.
    Exhausted { port: Seq<char>, method: Seq<char>, count: nat },
}

/// The state of a replay: the tape, and for each pair how many of its
/// records have been served.
pub struct ReplayView {
    pub tape: Seq<InteractionView>,
    pub served: Map<Pair, nat>,
}

impl ReplayView {
    /// The state before anything is served.
    pub open spec fn start(tape: Seq<InteractionView>) -> ReplayView {
        ReplayView { tape, served: Map::empty() }
    }

    /// The records of a pair, in recording order.
    pub open spec fn queue(self, port: Seq<char>, method: Seq<char>) -> Seq<InteractionView> {
        records_for(self.tape, port, method)
    }

    /// How many records of a pair have been served.
    pub open spec fn cursor(self, port: Seq<char>, method: Seq<char>) -> nat {
        if self.served.dom().contains((port, method)) {
            self.served[(port, method)]
        } else {
            0
        }
    }

    /// Whether a record of the pair is left to serve.
    pub open spec fn has_next(self, port: Seq<char>, method: Seq<char>) -> bool {
        self.cursor(port, method) < self.queue(port, method).len()
    }

    /// The record of the pair that is served next.
    pub open spec fn next_record(self, port: Seq<char>, method: Seq<char>) -> InteractionView
        recommends
            self.has_next(port, method),
    {
        self.queue(port, method)[self.cursor(port, method) as int]
    }

    /// The state after one record of the pair was served.
    pub open spec fn advanced(self, port: Seq<char>, method: Seq<char>) -> ReplayView {
        ReplayView {
            tape: self.tape,
            served: self.served.insert((port, method), self.cursor(port, method) + 1),
        }
    }

    /// The state after `n` records of the pair were served.
    pub open spec fn advanced_by(self, port: Seq<char>, method: Seq<char>, n: nat) -> ReplayView
        decreases n,
    {
        if n == 0 {
            self
        } else {
            self.advanced_by(port, method, (n - 1) as nat).advanced(port, method)
        }
    }

    /// Why nothing can be served for a pair without a record left.
    pub open spec fn failure(self, port: Seq<char>, method: Seq<char>) -> ReplayFailure
        recommends
            !self.has_next(port, method),
    {
        if self.queue(port, method).len() == 0 {
            ReplayFailure::UnknownPair { port, method, available: pairs_of(self.tape) }
        } else {
            ReplayFailure::Exhausted { port, method, count: self.queue(port, method).len() }
        }
    }
}

/// The pairs written as `port::method` and separated by `, `.
pub open spec fn joined_pairs(pairs: Seq<Pair>) -> Seq<char>
    decreases pairs.len(),
{
    if pairs.len() == 0 {
        Seq::empty()
    } else if pairs.len() == 1 {
        pairs[0].0 + "::"@ + pairs[0].1
    } else {
        joined_pairs(pairs.drop_last()) + ", "@ + pairs.last().0 + "::"@ + pairs.last().1
    }
}

/// The message of a failure. An unknown pair is reported with the pairs
/// that the cassette holds, an exhausted one with the number of records
/// that were served.
pub open spec fn failure_message(failure: ReplayFailure) -> Seq<char> {
    match failure {
        ReplayFailure::UnknownPair { port, method, available } =>
            "Cassette exhausted: no interactions recorded for port="@ + debug_quoted(port)
                + " method="@ + debug_quoted(method) + ". Available port::method pairs: ["@
                + joined_pairs(available) + "]"@,
        ReplayFailure::Exhausted { port, method, count } => "Cassette exhausted: all "@ + decimal(
            count,
        ) + " interactions for port="@ + debug_quoted(port) + " method="@ + debug_quoted(method)
            + " have been consumed."@,
    }
}

/// The failure of a replay that has nothing to serve for a pair.
#[derive(Debug)]
pub enum ReplayError {
    /// The cassette has no record for the pair.
    UnknownPair {
        /// The requested port.
        port: String,
        /// The requested method.
        method: String,
        /// The pairs that the cassette holds.
        available: Vec<(String, String)>,
    },
    /// Every record of the pair has been served.
    Exhausted {
        /// The requested port.
        port: String,
        /// The requested method.
        method: String,
        /// How many records the pair had.
        count: usize,
    },
}

/// The pairs that a list of owned pairs stands for.
pub open spec fn pair_views(pairs: Seq<(String, String)>) -> Seq<Pair> {
    pairs.map_values(|p: (String, String)| (p.0@, p.1@))
}

impl View for ReplayError {
    type V = ReplayFailure;

    open spec fn view(&self) -> ReplayFailure {
        match self {
            ReplayError::UnknownPair { port, method, available } => ReplayFailure::UnknownPair {
                port: port@,
                method: method@,
                available: pair_views(available@),
            },
            ReplayError::Exhausted { port, method, count } => ReplayFailure::Exhausted {
                port: port@,
                method: method@,
                count: *count as nat,
            },
        }
    }
}

fn join_pairs(pairs: &Vec<(String, String)>) -> (text: String)
    ensures
        text@ == joined_pairs(pair_views(pairs@)),
{
    let mut text = String::new();
    let mut i: usize = 0;
    while i < pairs.len()
        invariant
            i <= pairs.len(),
            text@ == joined_pairs(pair_views(pairs@).take(i as int)),
        decreases pairs.len() - i,
    {
        let ghost done = pair_views(pairs@).take(i as int);
        let ghost next = pair_views(pairs@).take(i + 1);
        assert(next.drop_last() =~= done);
        assert(next.last() == (pairs@[i as int].0@, pairs@[i as int].1@));
        if i > 0 {
            text.append(", ");
        }
        text.append(pairs[i].0.as_str());
        text.append("::");
        text.append(pairs[i].1.as_str());
        assert(text@ =~= joined_pairs(next)) by {
            if i == 0 {
                assert(next[0] == next.last());
            }
        }
        i += 1;
    }
    assert(pair_views(pairs@).take(pairs.len() as int) =~= pair_views(pairs@));
    text
}

impl ReplayError {
    /// The message that reports this failure.
    pub fn message(&self) -> (text: String)
        ensures
            text@ == failure_message(self@),
    {
        match self {
            ReplayError::UnknownPair { port, method, available } => {
                let mut text = concat3(
                    "Cassette exhausted: no interactions recorded for port=",
                    quote(port.as_str()).as_str(),
                    " method=",
                );
                text.append(quote(method.as_str()).as_str());
                text.append(". Available port::method pairs: [");
                text.append(join_pairs(available).as_str());
                text.append("]");
                text
            },
            ReplayError::Exhausted { port, method, count } => {
                let mut text = concat3(
                    "Cassette exhausted: all ",
                    decimal_string(*count as u64).as_str(),
                    " interactions for port=",
                );
                text.append(quote(port.as_str()).as_str());
                text.append(" method=");
                text.append(quote(method.as_str()).as_str());
                text.append(" have been consumed.");
                text
            },
        }
    }
}

/// Adding a record to the tape adds it to the records of its own pair and
/// to no others.
pub proof fn lemma_records_for_push(
    tape: Seq<InteractionView>,
    record: InteractionView,
    port: Seq<char>,
    method: Seq<char>,
)
    ensures
        records_for(tape.push(record), port, method) == if record.port == port && record.method
            == method {
            records_for(tape, port, method).push(record)
        } else {
            records_for(tape, port, method)
        },
{
    reveal(Seq::filter);
    assert(tape.push(record).drop_last() =~= tape);
}

/// A pair is listed exactly when the tape has a record for it.
pub proof fn lemma_pairs_of_lists_recorded(
    tape: Seq<InteractionView>,
    port: Seq<char>,
    method: Seq<char>,
)
    ensures
        pairs_of(tape).contains((port, method)) <==> records_for(tape, port, method).len() > 0,
    decreases tape.len(),
{
    reveal(Seq::filter);
    if tape.len() > 0 {
        let before = pairs_of(tape.drop_last());
        let last = (tape.last().port, tape.last().method);
        lemma_pairs_of_lists_recorded(tape.drop_last(), port, method);
        if !before.contains(last) {
            assert(before.push(last).last() == last);
            assert(forall|i: int| 0 <= i < before.len() ==> before.push(last)[i] == before[i]);
            if before.contains((port, method)) {
                let i = choose|i: int| 0 <= i < before.len() && before[i] == (port, method);
                assert(before.push(last)[i] == (port, method));
            }
        }
    }
}

/// No pair is listed twice.
pub proof fn lemma_pairs_of_distinct(tape: Seq<InteractionView>)
    ensures
        pairs_of(tape).no_duplicates(),
    decreases tape.len(),
{
    if tape.len() > 0 {
        lemma_pairs_of_distinct(tape.drop_last());
    }
}

/// The records of one pair together with the position of the next one to
/// serve.
struct Track {
    port: String,
    method: String,
    records: Vec<Interaction>,
    cursor: usize,
}

/// The pairs of the tracks, in order.
spec fn track_pairs(tracks: Seq<Track>) -> Seq<Pair> {
    tracks.map_values(|t: Track| (t.port@, t.method@))
}

/// The tracks hold the records of `state`'s tape, one track for each pair
/// in the order of `pairs_of`, with the cursors of `state`.
spec fn tracks_hold(tracks: Seq<Track>, state: ReplayView) -> bool {
    &&& track_pairs(tracks) == pairs_of(state.tape)
    &&& forall|i: int|
        #![trigger tracks[i]]
        0 <= i < tracks.len() ==> {
            &&& contents(tracks[i].records@) == state.queue(tracks[i].port@, tracks[i].method@)
            &&& tracks[i].cursor == state.cursor(tracks[i].port@, tracks[i].method@)
            &&& tracks[i].cursor <= tracks[i].records.len()
        }
    &&& forall|pair: Pair| #[trigger]
        state.served.dom().contains(pair) ==> pairs_of(state.tape).contains(pair)
}

/// The position of the track for a pair, if there is one.
fn find_track(tracks: &Vec<Track>, port: &str, method: &str) -> (found: Option<usize>)
    ensures
        match found {
            Some(i) => i < tracks.len() && track_pairs(tracks@)[i as int] == (port@, method@),
            None => !track_pairs(tracks@).contains((port@, method@)),
        },
{
    let mut i: usize = 0;
    while i < tracks.len()
        invariant
            i <= tracks.len(),
            forall|j: int| 0 <= j < i ==> track_pairs(tracks@)[j] != (port@, method@),
        decreases tracks.len() - i,
    {
        if str_eq(tracks[i].port.as_str(), port) && str_eq(tracks[i].method.as_str(), method) {
            return Some(i);
        }
        i += 1;
    }
    None
}

/// The pairs of the tracks as owned strings.
fn owned_pairs(tracks: &Vec<Track>) -> (pairs: Vec<(String, String)>)
    ensures
        pair_views(pairs@) == track_pairs(tracks@),
{
    let mut pairs: Vec<(String, String)> = Vec::new();
    let mut i: usize = 0;
    while i < tracks.len()
        invariant
            i <= tracks.len(),
            pair_views(pairs@) == track_pairs(tracks@).take(i as int),
        decreases tracks.len() - i,
    {
        let ghost done = pairs@;
        pairs.push((tracks[i].port.clone(), tracks[i].method.clone()));
        assert(pair_views(pairs@) =~= pair_views(done).push(track_pairs(tracks@)[i as int]));
        assert(track_pairs(tracks@).take(i + 1) =~= track_pairs(tracks@).take(i as int).push(
            track_pairs(tracks@)[i as int],
        ));
        i += 1;
    }
    assert(track_pairs(tracks@).take(tracks.len() as int) =~= track_pairs(tracks@));
    pairs
}

/// Serves the interactions of a loaded cassette in recorded order, one
/// queue for each (port, method) pair.
pub struct CassetteReplayer {
    tracks: Vec<Track>,
    state: Ghost<ReplayView>,
}

impl View for CassetteReplayer {
    type V = ReplayView;

    closed spec fn view(&self) -> ReplayView {
        self.state@
    }
}

impl CassetteReplayer {
    #[verifier::type_invariant]
    spec fn consistent(self) -> bool {
        tracks_hold(self.tracks@, self.state@)
    }

    /// Create a new replayer from a loaded cassette: every pair starts at
    /// its first record.
    pub fn new(cassette: &Cassette) -> (replayer: Self)
        ensures
            replayer@ == ReplayView::start(cassette@.interactions),
    {
        let ghost tape = cassette@.interactions;
        let mut tracks: Vec<Track> = Vec::new();
        let mut i: usize = 0;
        assert(tape.take(0) =~= Seq::<InteractionView>::empty());
        assert(track_pairs(tracks@) =~= Seq::<Pair>::empty());
        while i < cassette.interactions.len()
            invariant
                i <= cassette.interactions.len(),
                tape == contents(cassette.interactions@),
                tracks_hold(tracks@, ReplayView::start(tape.take(i as int))),
            decreases cassette.interactions.len() - i,
        {
            let record = &cassette.interactions[i];
            let ghost before = tape.take(i as int);
            let ghost after = tape.take(i + 1);
            let ghost pair = (record.port@, record.method@);
            let ghost old_tracks = tracks@;
            proof {
                assert(after =~= before.push(record@));
                assert(after.drop_last() =~= before);
                assert(after.last() == record@);
                lemma_pairs_of_lists_recorded(before, pair.0, pair.1);
                assert forall|k: int| 0 <= k < old_tracks.len() implies records_for(
                    after,
                    (#[trigger] old_tracks[k]).port@,
                    old_tracks[k].method@,
                ) == if (old_tracks[k].port@, old_tracks[k].method@) == pair {
                    records_for(before, old_tracks[k].port@, old_tracks[k].method@).push(record@)
                } else {
                    records_for(before, old_tracks[k].port@, old_tracks[k].method@)
                } by {
                    lemma_records_for_push(before, record@, old_tracks[k].port@, old_tracks[k].method@);
                }
                lemma_records_for_push(before, record@, pair.0, pair.1);
                lemma_pairs_of_distinct(before);
            }
            match find_track(&tracks, record.port.as_str(), record.method.as_str()) {
                Some(k) => {
                    tracks[k].records.push(record.clone());
                    proof {
                        assert(track_pairs(old_tracks)[k as int] == pair);
                        assert(pairs_of(before).contains(pair));
                        assert(track_pairs(tracks@) =~= track_pairs(old_tracks));
                        assert(contents(tracks@[k as int].records@) =~= contents(
                            old_tracks[k as int].records@,
                        ).push(record@));
                        assert forall|j: int| 0 <= j < tracks@.len() implies {
                            &&& contents((#[trigger] tracks@[j]).records@) == records_for(
                                after,
                                tracks@[j].port@,
                                tracks@[j].method@,
                            )
                            &&& tracks@[j].cursor == 0
                        } by {
                            assert(old_tracks[j].cursor == 0);
                            if j != k {
                                assert(tracks@[j] == old_tracks[j]);
                                assert(track_pairs(old_tracks)[j] != track_pairs(old_tracks)[
                                    k as int
                                ]);
                            }
                        }
                    }
                },
                None => {
                    let mut records: Vec<Interaction> = Vec::new();
                    records.push(record.clone());
                    tracks.push(
                        Track {
                            port: record.port.clone(),
                            method: record.method.clone(),
                            records,
                            cursor: 0,
                        },
                    );
                    proof {
                        assert(!pairs_of(before).contains(pair));
                        assert(records_for(before, pair.0, pair.1).len() == 0);
                        assert(track_pairs(tracks@) =~= track_pairs(old_tracks).push(pair));
                        assert(contents(records@) =~= Seq::<InteractionView>::empty().push(
                            record@,
                        ));
                        assert(records_for(before, pair.0, pair.1) =~= Seq::<
                            InteractionView,
                        >::empty());
                        assert forall|j: int| 0 <= j < tracks@.len() implies {
                            &&& contents((#[trigger] tracks@[j]).records@) == records_for(
                                after,
                                tracks@[j].port@,
                                tracks@[j].method@,
                            )
                            &&& tracks@[j].cursor == 0
                        } by {
                            if j < old_tracks.len() {
                                assert(tracks@[j] == old_tracks[j]);
                                assert(old_tracks[j].cursor == 0);
                                assert(track_pairs(old_tracks)[j] != pair);
                            }
                        }
                    }
                },
            }
            i += 1;
        }
        assert(tape.take(cassette.interactions.len() as int) =~= tape);
        CassetteReplayer { tracks, state: Ghost(ReplayView::start(tape)) }
    }

    /// Return the next interaction for the given port and method, or say
    /// why there is none.
    ///
    /// A record is served exactly when the pair has one left; the cursor of
    /// that pair then moves on by one and nothing else changes. Otherwise
    /// the replayer stays as it was and the error tells an unknown pair
    /// from an exhausted one.
    pub fn try_next_interaction(&mut self, port: &str, method: &str) -> (served: Result<
        &Interaction,
        ReplayError,
    >)
        ensures
            match served {
                Ok(record) => {
                    &&& old(self)@.has_next(port@, method@)
                    &&& record@ == old(self)@.next_record(port@, method@)
                    &&& final(self)@ == old(self)@.advanced(port@, method@)
                },
                Err(error) => {
                    &&& !old(self)@.has_next(port@, method@)
                    &&& error@ == old(self)@.failure(port@, method@)
                    &&& final(self)@ == old(self)@
                },
            },
    {
        proof {
            use_type_invariant(&*self);
            lemma_pairs_of_lists_recorded(self.state@.tape, port@, method@);
            lemma_pairs_of_distinct(self.state@.tape);
        }
        let ghost before = self.state@;
        match find_track(&self.tracks, port, method) {
            None => {
                let available = owned_pairs(&self.tracks);
                Err(ReplayError::UnknownPair { port: owned(port), method: owned(method), available })
            },
            Some(k) => {
                assert(track_pairs(self.tracks@)[k as int] == (port@, method@));
                assert(pairs_of(before.tape).contains((port@, method@)));
                let cursor = self.tracks[k].cursor;
                let count = self.tracks[k].records.len();
                if cursor < count {
                    let none: Vec<Track> = Vec::new();
                    assert(track_pairs(none@) =~= Seq::<Pair>::empty());
                    let mut taken = CassetteReplayer {
                        tracks: none,
                        state: Ghost(ReplayView::start(Seq::empty())),
                    };
                    std::mem::swap(self, &mut taken);
                    let CassetteReplayer { tracks: mut tracks, state: _ } = taken;
                    let ghost old_tracks = tracks@;
                    tracks[k].cursor = cursor + 1;
                    let ghost after = before.advanced(port@, method@);
                    proof {
                        assert(track_pairs(tracks@) =~= track_pairs(old_tracks));
                        assert forall|j: int| 0 <= j < tracks@.len() implies {
                            &&& contents((#[trigger] tracks@[j]).records@) == after.queue(
                                tracks@[j].port@,
                                tracks@[j].method@,
                            )
                            &&& tracks@[j].cursor == after.cursor(
                                tracks@[j].port@,
                                tracks@[j].method@,
                            )
                            &&& tracks@[j].cursor <= tracks@[j].records.len()
                        } by {
                            if j != k {
                                assert(tracks@[j] == old_tracks[j]);
                                assert(track_pairs(old_tracks)[j] != track_pairs(old_tracks)[
                                    k as int
                                ]);
                            }
                        }
                    }
                    *self = CassetteReplayer { tracks, state: Ghost(after) };
                    Ok(&self.tracks[k].records[cursor])
                } else {
                    Err(ReplayError::Exhausted { port: owned(port), method: owned(method), count })
                }
            },
        }
    }

    /// Return the next interaction for the given port and method and move
    /// the cursor of that pair on by one.
    ///
    /// The pair must have a record left.
    pub fn next_interaction(&mut self, port: &str, method: &str) -> (record: &Interaction)
        requires
            old(self)@.has_next(port@, method@),
        ensures
            record@ == old(self)@.next_record(port@, method@),
            final(self)@ == old(self)@.advanced(port@, method@),
    {
        match self.try_next_interaction(port, method) {
            Ok(record) => record,
            Err(_) => vstd::pervasive::unreached(),
        }
    }
}

} // verus!
