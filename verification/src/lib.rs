//! A content-addressed, append-only record store. An authenticated
//! submitter registers an opaque byte payload (a "wave function"); the
//! store validates its size, derives an identifier by hashing the payload
//! together with its author, keys the record by that identifier, and emits
//! a notification event. Submission is all-or-nothing: a refused call
//! leaves the map and the event log untouched.

mod account;
mod codec;
mod hashing;
mod origin;
mod pallet;
mod record;
mod store;

pub use account::AccountId;
pub use codec::{
    encode_record, lemma_encode_record_author_sensitive, lemma_encode_record_injective,
    spec_encode_record,
};
pub use hashing::{blake2s_of, derive_record_id, lemma_record_id_deterministic, spec_record_id};
pub use origin::{ensure_signed, Origin};
pub use pallet::{events_ok, records_ok, Pallet, PalletView};
pub use record::{
    events_view, Config, Error, Event, EventView, RecordId, WaveFunction, WaveFunctionView,
};
pub use store::{distinct_keys, map_of_entries, WaveFunctions};
