use vstd::prelude::*;

verus! {

/// Why a governance operation was rejected.
///
/// Every mutating operation either commits fully or returns one of these
/// and leaves the whole state exactly as it was.
#[derive(Clone, Copy, PartialEq, Eq, Structural, Debug)]
pub enum GovernanceError {
    /// The caller is not the owner, for an owner-gated operation.
    Unauthorized,
    /// No proposal is stored under the given id.
    ProposalNotFound,
    /// The proposal has already been executed; it is terminal.
    AlreadyExecuted,
    /// The caller (or the account to remove) is not on the membership roll.
    NotAMember,
    /// The favorable weight does not strictly exceed the quorum.
    QuorumNotMet,
}

} // verus!
