use vstd::prelude::*;

verus! {

/// An authenticated participant identity, as the host runtime reports it.
///
/// The engine never looks inside an identity: it only compares identities
/// for equality, so a plain 128-bit value stands in for the ledger's opaque
/// account id.
#[derive(Clone, Copy, PartialEq, Eq, Structural, Debug)]
pub struct AccountId {
    pub id: u128,
}

impl AccountId {
    /// Wrap a raw identity value.
    pub fn new(id: u128) -> (r: AccountId)
        ensures
            r.id == id,
    {
        AccountId { id }
    }
}

} // verus!
