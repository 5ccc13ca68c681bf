//! The stored record shape, its identifier, and the registry's
//! configuration, error and event types.

use vstd::prelude::*;

use crate::account::AccountId;

verus! {

/// A stored record: an opaque byte payload together with the identity of
/// its submitter.
#[derive(Clone, Debug, PartialEq, Eq)]
pub struct WaveFunction {
    pub function: Vec<u8>,
    pub author: AccountId,
}

/// The mathematical value of a [`WaveFunction`]: its payload bytes and its
/// author's identifier bytes.
pub struct WaveFunctionView {
    pub function: Seq<u8>,
    pub author: Seq<u8>,
}

impl View for WaveFunction {
    type V = WaveFunctionView;

    open spec fn view(&self) -> WaveFunctionView {
        WaveFunctionView { function: self.function@, author: self.author@ }
    }
}

/// A record identifier: the fixed-width hash derived from the full content
/// of a record. It keys the registry map.
#[derive(Clone, Copy, Debug, PartialEq, Eq, Hash)]
pub struct RecordId {
    pub bytes: [u8; 32],
}

impl View for RecordId {
    type V = Seq<u8>;

    open spec fn view(&self) -> Seq<u8> {
        self.bytes@
    }
}

impl RecordId {
    /// Builds an identifier from its raw bytes.
    pub fn new(bytes: [u8; 32]) -> (r: RecordId)
        ensures
            r@ == bytes@,
    {
        RecordId { bytes }
    }

    /// Compares two identifiers byte for byte.
    pub fn equals(&self, other: &RecordId) -> (r: bool)
        ensures
            r == (self@ == other@),
    {
        let mut i: usize = 0;
        while i < 32
            invariant
                i <= 32,
                forall|j: int| 0 <= j < i ==> self.bytes@[j] == other.bytes@[j],
            decreases 32 - i,
        {
            if self.bytes[i] != other.bytes[i] {
                return false;
            }
            i += 1;
        }
        proof {
            assert(self@ =~= other@);
        }
        true
    }
}

/// The deployment-time configuration the host supplies to the registry:
/// the upper bound on a payload's length in bytes.
#[derive(Clone, Copy, Debug, PartialEq, Eq, Structural)]
pub struct Config {
    pub max_bytes: u32,
}

/// Why a submission was refused. Both errors are detected before any state
/// mutation.
#[derive(Clone, Copy, Debug, PartialEq, Eq, Structural)]
pub enum Error {
    /// The invocation carries no verified caller identity.
    Unauthenticated,
    /// The payload is longer than the configured `max_bytes`.
    PayloadTooLarge,
}

/// A notification emitted on every successful submission, carrying the
/// payload, the author, and the derived identifier.
#[derive(Clone, Debug, PartialEq, Eq)]
pub enum Event {
    WaveFunctionAdded(Vec<u8>, AccountId, RecordId),
}

/// The mathematical value of an [`Event`].
pub struct EventView {
    pub function: Seq<u8>,
    pub author: Seq<u8>,
    pub id: Seq<u8>,
}

impl View for Event {
    type V = EventView;

    open spec fn view(&self) -> EventView {
        match self {
            Event::WaveFunctionAdded(function, author, id) => EventView {
                function: function@,
                author: author@,
                id: id@,
            },
        }
    }
}

/// The values of a whole event log, in emission order.
pub open spec fn events_view(events: Seq<Event>) -> Seq<EventView> {
    events.map_values(|e: Event| e@)
}

} // verus!
