//! The opaque, fixed-width identity of a submitter.

use vstd::prelude::*;

verus! {

/// An account identifier: a fixed-width value attached to every stored
/// record. The registry never inspects it beyond hashing its bytes.
#[derive(Clone, Copy, Debug, PartialEq, Eq, Hash)]
pub struct AccountId {
    pub bytes: [u8; 32],
}

impl View for AccountId {
    type V = Seq<u8>;

    open spec fn view(&self) -> Seq<u8> {
        self.bytes@
    }
}

impl AccountId {
    /// Builds an identifier from its raw bytes.
    pub fn new(bytes: [u8; 32]) -> (r: AccountId)
        ensures
            r@ == bytes@,
    {
        AccountId { bytes }
    }

    /// The raw bytes of the identifier.
    pub fn bytes(&self) -> (r: &[u8; 32])
        ensures
            r@ == self@,
    {
        &self.bytes
    }
}

} // verus!
