//! The cassette: an ordered log of recorded interactions.

use vstd::prelude::*;

verus! {

/// A point in time: whole seconds since the Unix epoch and the nanoseconds
/// into that second (a leap second may bring them past 999,999,999).
#[derive(Debug, Clone, Copy, PartialEq, Eq, Structural)]
pub struct Timestamp {
    /// Seconds since January 1, 1970 0:00:00 UTC.
    pub secs: i64,
    /// Nanoseconds since the last whole second.
    pub nanos: u32,
}

/// A single recorded call.
#[derive(Debug)]
pub struct Interaction {
    /// Position of the call in its recording, counted from zero.
    pub seq: u64,
    /// The logical boundary that was exercised.
    pub port: String,
    /// The operation on that port.
    pub method: String,
    /// The serialized request.
    pub input: serde_json::Value,
    /// The serialized outcome.
    pub output: serde_json::Value,
}

/// The content of an [`Interaction`].
pub struct InteractionView {
    pub seq: u64,
    pub port: Seq<char>,
    pub method: Seq<char>,
    pub input: serde_json::Value,
    pub output: serde_json::Value,
}

impl View for Interaction {
    type V = InteractionView;

    open spec fn view(&self) -> InteractionView {
        InteractionView {
            seq: self.seq,
            port: self.port@,
            method: self.method@,
            input: self.input,
            output: self.output,
        }
    }
}

impl Clone for Interaction {
    fn clone(&self) -> (copy: Self)
        ensures
            copy == *self,
    {
        Interaction {
            seq: self.seq,
            port: self.port.clone(),
            method: self.method.clone(),
            input: self.input.clone(),
            output: self.output.clone(),
        }
    }
}

/// The contents of a sequence of interactions.
pub open spec fn contents(records: Seq<Interaction>) -> Seq<InteractionView> {
    records.map_values(|r: Interaction| r@)
}

/// A copy of `records`.
pub fn clone_records(records: &Vec<Interaction>) -> (copy: Vec<Interaction>)
    ensures
        copy@ == records@,
{
    let mut copy: Vec<Interaction> = Vec::new();
    let mut i: usize = 0;
    while i < records.len()
        invariant
            i <= records.len(),
            copy@ == records@.take(i as int),
        decreases records.len() - i,
    {
        copy.push(records[i].clone());
        assert(records@.take(i + 1) =~= records@.take(i as int).push(records@[i as int]));
        i += 1;
    }
    assert(records@.take(records.len() as int) =~= records@);
    copy
}

/// An ordered collection of interaction records plus metadata. The order of
/// the interactions is the order in which they are replayed.
#[derive(Debug)]
pub struct Cassette {
    /// Human-readable label.
    pub name: String,
    /// When the cassette was captured.
    pub recorded_at: Timestamp,
    /// The code revision in effect at capture time.
    pub commit: String,
    /// The recorded interactions, in recording order.
    pub interactions: Vec<Interaction>,
}

/// The content of a [`Cassette`].
pub struct CassetteView {
    pub name: Seq<char>,
    pub recorded_at: Timestamp,
    pub commit: Seq<char>,
    pub interactions: Seq<InteractionView>,
}

impl View for Cassette {
    type V = CassetteView;

    open spec fn view(&self) -> CassetteView {
        CassetteView {
            name: self.name@,
            recorded_at: self.recorded_at,
            commit: self.commit@,
            interactions: contents(self.interactions@),
        }
    }
}

impl Clone for Cassette {
    fn clone(&self) -> (copy: Self)
        ensures
            copy@ == self@,
    {
        Cassette {
            name: self.name.clone(),
            recorded_at: self.recorded_at,
            commit: self.commit.clone(),
            interactions: clone_records(&self.interactions),
        }
    }
}

} // verus!
