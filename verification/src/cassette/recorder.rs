//! Records interactions into a cassette.

use super::format::{contents, Cassette, CassetteView, Interaction, InteractionView, Timestamp};
use crate::text::owned;
use vstd::prelude::*;

verus! {

/// Accumulates interactions in memory during a live run and hands them over
/// as a cassette on completion.
#[derive(Debug)]
pub struct CassetteRecorder {
    path: String,
    name: String,
    commit: String,
    interactions: Vec<Interaction>,
}

/// What a finished recording leaves behind: the cassette and the path of
/// the file it is to be written to.
#[derive(Debug)]
pub struct Recording {
    /// Where the cassette file belongs.
    pub path: String,
    /// The captured cassette.
    pub cassette: Cassette,
}

/// The interaction that a recorder with `count` records makes of a call.
pub open spec fn captured(
    count: nat,
    port: Seq<char>,
    method: Seq<char>,
    input: serde_json::Value,
    output: serde_json::Value,
) -> InteractionView {
    InteractionView { seq: count as u64, port, method, input, output }
}

/// A call as it is handed to the recorder.
pub struct Call {
    pub port: Seq<char>,
    pub method: Seq<char>,
    pub input: serde_json::Value,
    pub output: serde_json::Value,
}

/// What a new recorder holds after it has recorded `calls` in order.
pub open spec fn recorded_after(calls: Seq<Call>) -> Seq<InteractionView>
    decreases calls.len(),
{
    if calls.len() == 0 {
        Seq::empty()
    } else {
        let before = recorded_after(calls.drop_last());
        let call = calls.last();
        before.push(captured(before.len(), call.port, call.method, call.input, call.output))
    }
}

/// The sequence numbers count up from zero without a gap.
pub open spec fn numbered(records: Seq<InteractionView>) -> bool {
    forall|i: int| 0 <= i < records.len() ==> (#[trigger] records[i]).seq == i
}

impl CassetteRecorder {
    #[verifier::type_invariant]
    spec fn well_numbered(self) -> bool {
        numbered(contents(self.interactions@))
    }

    /// The path of the cassette file.
    pub closed spec fn path(self) -> Seq<char> {
        self.path@
    }

    /// The label of the cassette.
    pub closed spec fn name(self) -> Seq<char> {
        self.name@
    }

    /// The code revision noted on the cassette.
    pub closed spec fn commit(self) -> Seq<char> {
        self.commit@
    }

    /// The interactions recorded so far, in the order of the calls.
    pub closed spec fn recorded(self) -> Seq<InteractionView> {
        contents(self.interactions@)
    }

    /// Create a new recorder whose cassette belongs at the given path.
    pub fn new(path: &str, name: &str, commit: &str) -> (recorder: Self)
        ensures
            recorder.path() == path@,
            recorder.name() == name@,
            recorder.commit() == commit@,
            recorder.recorded() == Seq::<InteractionView>::empty(),
    {
        let recorder = CassetteRecorder {
            path: owned(path),
            name: owned(name),
            commit: owned(commit),
            interactions: Vec::new(),
        };
        assert(contents(recorder.interactions@) =~= Seq::<InteractionView>::empty());
        recorder
    }

    /// Record an interaction. Its `seq` is the number of interactions
    /// recorded before it.
    pub fn record(
        &mut self,
        port: &str,
        method: &str,
        input: serde_json::Value,
        output: serde_json::Value,
    )
        ensures
            final(self).recorded() == old(self).recorded().push(
                captured(old(self).recorded().len(), port@, method@, input, output),
            ),
            final(self).recorded().last().seq == old(self).recorded().len(),
            final(self).path() == old(self).path(),
            final(self).name() == old(self).name(),
            final(self).commit() == old(self).commit(),
    {
        proof {
            use_type_invariant(&*self);
        }
        let interaction = Interaction {
            seq: self.interactions.len() as u64,
            port: owned(port),
            method: owned(method),
            input,
            output,
        };
        let mut interactions: Vec<Interaction> = Vec::new();
        assert(contents(interactions@) =~= Seq::<InteractionView>::empty());
        std::mem::swap(&mut self.interactions, &mut interactions);
        interactions.push(interaction);
        assert(contents(interactions@) =~= contents(old(self).interactions@).push(interaction@));
        self.interactions = interactions;
    }

    /// Finish recording: the recorder becomes a cassette that is stamped
    /// with `recorded_at`, the time of the capture, and holds every recorded
    /// interaction in the order of the calls.
    pub fn finish(self, recorded_at: Timestamp) -> (done: Recording)
        ensures
            done.path@ == self.path(),
            done.cassette@ == (CassetteView {
                name: self.name(),
                recorded_at,
                commit: self.commit(),
                interactions: self.recorded(),
            }),
            numbered(done.cassette@.interactions),
    {
        proof {
            use_type_invariant(&self);
        }
        Recording {
            path: self.path,
            cassette: Cassette {
                name: self.name,
                recorded_at,
                commit: self.commit,
                interactions: self.interactions,
            },
        }
    }
}

} // verus!
