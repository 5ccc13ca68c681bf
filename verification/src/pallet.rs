//! The registry component: it owns the record map and the event log, and
//! exposes the single write operation that validates, hashes, stores and
//! notifies, all-or-nothing.

use vstd::prelude::*;

use crate::hashing::{derive_record_id, spec_record_id};
use crate::origin::{ensure_signed, Origin};
use crate::record::{
    events_view, Config, Error, Event, EventView, RecordId, WaveFunction, WaveFunctionView,
};
use crate::store::WaveFunctions;

verus! {

/// The mathematical state of a [`Pallet`]: its size bound, the map of
/// stored records keyed by identifier bytes, and the event log in
/// emission order.
pub struct PalletView {
    pub max_bytes: int,
    pub records: Map<Seq<u8>, WaveFunctionView>,
    pub events: Seq<EventView>,
}

/// The registry invariant over its stored records: every record respects
/// the size bound, carries a full-width author identifier, and sits at
/// the key derived from its own content.
pub open spec fn records_ok(records: Map<Seq<u8>, WaveFunctionView>, max_bytes: int) -> bool {
    forall|k: Seq<u8>|
        #[trigger] records.contains_key(k) ==> {
            &&& records[k].function.len() <= max_bytes
            &&& records[k].author.len() == 32
            &&& k == spec_record_id(records[k].function, records[k].author)
        }
}

/// The registry invariant over its event log: every event names an
/// identifier the map holds a record at (the store precedes the
/// notification, and records are never removed), and that identifier is
/// derived from the event's own payload and author.
pub open spec fn events_ok(events: Seq<EventView>, records: Map<Seq<u8>, WaveFunctionView>) -> bool {
    forall|i: int|
        0 <= i < events.len() ==> {
            &&& records.contains_key((#[trigger] events[i]).id)
            &&& events[i].id == spec_record_id(events[i].function, events[i].author)
        }
}

/// The registry: one record map, one event log, and the deployment-time
/// bound on payload size.
pub struct Pallet {
    max_bytes: u32,
    wave_functions: WaveFunctions,
    events: Vec<Event>,
}

impl View for Pallet {
    type V = PalletView;

    closed spec fn view(&self) -> PalletView {
        PalletView {
            max_bytes: self.max_bytes as int,
            records: self.wave_functions@,
            events: events_view(self.events@),
        }
    }
}

impl Pallet {
    /// Well-formedness: the record map keys are unique, every stored
    /// record satisfies [`records_ok`], and every emitted event satisfies
    /// [`events_ok`].
    pub closed spec fn wf(self) -> bool {
        &&& self.wave_functions.wf()
        &&& records_ok(self@.records, self@.max_bytes)
        &&& events_ok(self@.events, self@.records)
    }

    /// A registry with no records and no events, enforcing the bound the
    /// host configured.
    pub fn new(config: Config) -> (r: Pallet)
        ensures
            r.wf(),
            r@.max_bytes == config.max_bytes as int,
            r@.records == Map::<Seq<u8>, WaveFunctionView>::empty(),
            r@.events == Seq::<EventView>::empty(),
    {
        let pallet = Pallet {
            max_bytes: config.max_bytes,
            wave_functions: WaveFunctions::new(),
            events: Vec::new(),
        };
        proof {
            assert(pallet@.events =~= Seq::<EventView>::empty());
        }
        pallet
    }

    /// The configured upper bound on a payload's length in bytes.
    pub fn max_bytes(&self) -> (r: u32)
        ensures
            r as int == self@.max_bytes,
    {
        self.max_bytes
    }

    /// Validates, stores and notifies one submission: fails with
    /// `Unauthenticated` when no verified identity is attached, with
    /// `PayloadTooLarge` when the payload exceeds the bound; otherwise
    /// stores the record at its content-derived identifier, emits one
    /// event, and returns the identifier. A failed call changes nothing.
    pub fn submit(&mut self, origin: &Origin, function: Vec<u8>) -> (r: Result<RecordId, Error>)
        requires
            old(self).wf(),
        ensures
            final(self).wf(),
            final(self)@.max_bytes == old(self)@.max_bytes,
            (r matches Result::Ok(_)) <==> (origin.is_signed() && function@.len() <= old(
                self,
            )@.max_bytes),
            match r {
                Result::Ok(id) => {
                    &&& id@ == spec_record_id(function@, origin.signer())
                    &&& final(self)@.records == old(self)@.records.insert(
                        id@,
                        (WaveFunctionView { function: function@, author: origin.signer() }),
                    )
                    &&& final(self)@.events == old(self)@.events.push(
                        (EventView {
                            function: function@,
                            author: origin.signer(),
                            id: id@,
                        }),
                    )
                },
                Result::Err(e) => {
                    &&& final(self)@ == old(self)@
                    &&& (e == Error::Unauthenticated <==> !origin.is_signed())
                    &&& (e == Error::PayloadTooLarge <==> origin.is_signed() && function@.len()
                        > old(self)@.max_bytes)
                },
            },
    {
        let author = match ensure_signed(origin) {
            Result::Ok(author) => author,
            Result::Err(e) => {
                return Result::Err(e);
            },
        };
        if function.len() > self.max_bytes as usize {
            return Result::Err(Error::PayloadTooLarge);
        }
        let stored = function.clone();
        proof {
            assert forall|i: int| 0 <= i < stored@.len() implies stored@[i] == function@[i] by {
                assert(vstd::pervasive::cloned::<u8>(function@[i], stored@[i]));
            }
            assert(stored@ =~= function@);
        }
        let wave_function = WaveFunction { function: stored, author };
        let id = derive_record_id(&wave_function);
        let ghost records0 = self@.records;
        let ghost events0 = self@.events;
        self.wave_functions.insert(id, wave_function);
        self.events.push(Event::WaveFunctionAdded(function, author, id));
        proof {
            assert(self@.events =~= events0.push(
                (EventView { function: function@, author: author@, id: id@ }),
            ));
            assert forall|k: Seq<u8>| #[trigger] self@.records.contains_key(k) implies {
                &&& self@.records[k].function.len() <= self@.max_bytes
                &&& self@.records[k].author.len() == 32
                &&& k == spec_record_id(self@.records[k].function, self@.records[k].author)
            } by {
                if k != id@ {
                    assert(records0.contains_key(k));
                }
            }
            assert forall|i: int| 0 <= i < self@.events.len() implies {
                &&& self@.records.contains_key((#[trigger] self@.events[i]).id)
                &&& self@.events[i].id == spec_record_id(
                    self@.events[i].function,
                    self@.events[i].author,
                )
            } by {
                if i < events0.len() {
                    assert(events0[i] == self@.events[i]);
                    assert(records0.contains_key(events0[i].id));
                }
            }
        }
        Result::Ok(id)
    }

    /// The call surface of the registry: submits a payload on behalf of
    /// the invocation's verified signer, dropping the derived identifier.
    pub fn add_wavefunction(&mut self, origin: &Origin, function: Vec<u8>) -> (r: Result<
        (),
        Error,
    >)
        requires
            old(self).wf(),
        ensures
            final(self).wf(),
            final(self)@.max_bytes == old(self)@.max_bytes,
            (r matches Result::Ok(_)) <==> (origin.is_signed() && function@.len() <= old(
                self,
            )@.max_bytes),
            (r matches Result::Ok(_)) ==> {
                &&& final(self)@.records == old(self)@.records.insert(
                    spec_record_id(function@, origin.signer()),
                    (WaveFunctionView { function: function@, author: origin.signer() }),
                )
                &&& final(self)@.events == old(self)@.events.push(
                    (EventView {
                        function: function@,
                        author: origin.signer(),
                        id: spec_record_id(function@, origin.signer()),
                    }),
                )
            },
            (r matches Result::Err(e) ==> {
                &&& final(self)@ == old(self)@
                &&& (e == Error::Unauthenticated <==> !origin.is_signed())
                &&& (e == Error::PayloadTooLarge <==> origin.is_signed() && function@.len() > old(
                    self,
                )@.max_bytes)
            }),
    {
        match self.submit(origin, function) {
            Result::Ok(_) => Result::Ok(()),
            Result::Err(e) => Result::Err(e),
        }
    }

    /// The record stored at `id`, if any: the external read path into the
    /// registry map.
    pub fn wave_functions(&self, id: &RecordId) -> (r: Option<&WaveFunction>)
        requires
            self.wf(),
        ensures
            match r {
                Option::Some(wave_function) => self@.records.contains_key(id@) && wave_function@
                    == self@.records[id@],
                Option::None => !self@.records.contains_key(id@),
            },
    {
        self.wave_functions.get(id)
    }

    /// How many records are stored.
    pub fn record_count(&self) -> (r: usize)
        requires
            self.wf(),
        ensures
            r == self@.records.dom().len(),
    {
        self.wave_functions.len()
    }

    /// The events emitted so far, in emission order.
    pub fn events(&self) -> (r: &Vec<Event>)
        ensures
            events_view(r@) == self@.events,
    {
        &self.events
    }

    /// Every stored record of a well-formed registry respects the size
    /// bound, carries a full-width author identifier, and sits at the key
    /// derived from its own content.
    pub proof fn lemma_stored_records_well_formed(self)
        requires
            self.wf(),
        ensures
            records_ok(self@.records, self@.max_bytes),
    {
    }

    /// A consumer observing any emitted event may assume the
    /// corresponding map entry exists: every event of a well-formed
    /// registry names an identifier the map holds a record at, derived
    /// from the event's own payload and author.
    pub proof fn lemma_events_well_formed(self)
        requires
            self.wf(),
        ensures
            events_ok(self@.events, self@.records),
    {
    }
}

} // verus!
