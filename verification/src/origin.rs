//! The caller identity attached to an invocation by the host's
//! authentication layer.

use vstd::prelude::*;

use crate::account::AccountId;
use crate::record::Error;

verus! {

/// What the host's authentication layer attached to an invocation: either
/// a verified signer identity, or nothing.
#[derive(Clone, Copy, Debug, PartialEq, Eq)]
pub enum Origin {
    /// The invocation was signed and the signer's identity was verified.
    Signed(AccountId),
    /// No verified identity is attached to the invocation.
    Unsigned,
}

impl Origin {
    /// Whether a verified identity is attached.
    pub open spec fn is_signed(self) -> bool {
        self is Signed
    }

    /// The identifier bytes of the verified signer.
    pub open spec fn signer(self) -> Seq<u8>
        recommends
            self is Signed,
    {
        self->0@
    }
}

/// Yields the verified signer of an invocation, or refuses it as
/// `Unauthenticated` when no verified identity is attached.
pub fn ensure_signed(origin: &Origin) -> (r: Result<AccountId, Error>)
    ensures
        match r {
            Result::Ok(author) => origin.is_signed() && author@ == origin.signer(),
            Result::Err(e) => !origin.is_signed() && e == Error::Unauthenticated,
        },
{
    match origin {
        Origin::Signed(author) => Result::Ok(*author),
        Origin::Unsigned => Result::Err(Error::Unauthenticated),
    }
}

} // verus!
