//! The byte string a record is hashed over: the author's identifier
//! followed by the payload. Because the identifier has a fixed width, the
//! encoding is injective, so distinct records are hashed over distinct
//! byte strings.

use vstd::prelude::*;

use crate::record::WaveFunction;

verus! {

/// The byte string that stands for a record's full content: the author's
/// 32 identifier bytes, then the payload bytes.
pub open spec fn spec_encode_record(function: Seq<u8>, author: Seq<u8>) -> Seq<u8> {
    author + function
}

/// Encodes a record into the byte string its identifier is derived from.
pub fn encode_record(wave_function: &WaveFunction) -> (r: Vec<u8>)
    ensures
        r@ == spec_encode_record(wave_function.function@, wave_function.author@),
{
    let mut encoded: Vec<u8> = Vec::new();
    encoded.extend_from_slice(wave_function.author.bytes.as_slice());
    encoded.extend_from_slice(wave_function.function.as_slice());
    proof {
        assert(encoded@ =~= wave_function.author@ + wave_function.function@);
    }
    encoded
}

/// The encoding is injective: two records encode to the same byte string
/// only if they have the same payload and the same author.
pub proof fn lemma_encode_record_injective(f1: Seq<u8>, a1: Seq<u8>, f2: Seq<u8>, a2: Seq<u8>)
    requires
        a1.len() == 32,
        a2.len() == 32,
        spec_encode_record(f1, a1) == spec_encode_record(f2, a2),
    ensures
        f1 == f2,
        a1 == a2,
{
    let e = spec_encode_record(f1, a1);
    assert(a1 =~= e.subrange(0, 32));
    assert(a2 =~= e.subrange(0, 32));
    assert(f1 =~= e.subrange(32, e.len() as int));
    assert(f2 =~= e.subrange(32, e.len() as int));
}

/// Author sensitivity: with the payload fixed, two distinct authors yield
/// distinct hash inputs, so the derived ids differ unless the digest
/// itself collides.
pub proof fn lemma_encode_record_author_sensitive(f: Seq<u8>, a1: Seq<u8>, a2: Seq<u8>)
    requires
        a1.len() == 32,
        a2.len() == 32,
        a1 != a2,
    ensures
        spec_encode_record(f, a1) != spec_encode_record(f, a2),
{
    if spec_encode_record(f, a1) == spec_encode_record(f, a2) {
        lemma_encode_record_injective(f, a1, f, a2);
    }
}

} // verus!
