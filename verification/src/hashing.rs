//! Identifier derivation: a record's id is the 256-bit BLAKE2s digest of
//! its encoded content.

use vstd::prelude::*;

use crate::codec::{encode_record, spec_encode_record};
use crate::record::{RecordId, WaveFunction};

verus! {

/// The 256-bit BLAKE2s digest of a byte string.
pub uninterp spec fn blake2s_of(bytes: Seq<u8>) -> Seq<u8>;

/// The identifier derived for a record with the given payload and author:
/// the digest of the record's encoded content.
pub open spec fn spec_record_id(function: Seq<u8>, author: Seq<u8>) -> Seq<u8> {
    blake2s_of(spec_encode_record(function, author))
}

/// Relies on `blake2::Blake2s256` through the `Digest` trait: the 256-bit
/// BLAKE2s digest of the input bytes, a fixed function of those bytes
/// alone, 32 bytes wide.
#[verifier::external_body]
fn blake2s_digest(bytes: &Vec<u8>) -> (r: [u8; 32])
    ensures
        r@ == blake2s_of(bytes@),
{
    let digest = <blake2::Blake2s256 as blake2::Digest>::digest(bytes.as_slice());
    digest.into()
}

/// Derives the identifier of a record from its full content.
pub fn derive_record_id(wave_function: &WaveFunction) -> (id: RecordId)
    ensures
        id@ == spec_record_id(wave_function.function@, wave_function.author@),
{
    let encoded = encode_record(wave_function);
    RecordId::new(blake2s_digest(&encoded))
}

/// Determinism: the identifier derived for a record is a function of its
/// payload and author alone, so two submissions of the same payload by
/// the same author are assigned the same identifier.
pub proof fn lemma_record_id_deterministic(f1: Seq<u8>, a1: Seq<u8>, f2: Seq<u8>, a2: Seq<u8>)
    requires
        f1 == f2,
        a1 == a2,
    ensures
        spec_record_id(f1, a1) == spec_record_id(f2, a2),
{
}

} // verus!
