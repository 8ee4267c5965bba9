use vstd::prelude::*;

use crate::account::AccountId;

verus! {

/// A governance item: who created it, its vote tallies, and a terminal
/// executed flag.
///
/// `against_votes` is counted only under the member-based membership model;
/// under the weight-based model a ballot against is recorded nowhere and the
/// field stays at zero.
#[derive(Clone, Copy, PartialEq, Eq, Structural, Debug)]
pub struct Proposal {
    pub creator: AccountId,
    pub for_votes: u128,
    pub against_votes: u128,
    pub executed: bool,
}

/// The record a freshly created proposal starts from: zero tallies, not
/// executed.
pub open spec fn spec_new_proposal(creator: AccountId) -> Proposal {
    Proposal { creator, for_votes: 0, against_votes: 0, executed: false }
}

/// 128-bit unsigned addition that stops at the largest representable value.
pub open spec fn sat_add_u128(a: u128, b: u128) -> u128 {
    if a + b > u128::MAX {
        u128::MAX
    } else {
        (a + b) as u128
    }
}

/// Executable counterpart of [`sat_add_u128`].
pub fn saturating_add_u128(a: u128, b: u128) -> (r: u128)
    ensures
        r == sat_add_u128(a, b),
{
    if a <= u128::MAX - b {
        a + b
    } else {
        u128::MAX
    }
}

/// How one ballot changes a proposal.
///
/// Under the weight-based model a ballot in favor adds the voter's whole
/// power to `for_votes` and a ballot against changes nothing. Under the
/// member-based model every ballot counts one, on the matching tally.
/// Tallies saturate at the largest 128-bit value rather than wrap.
pub open spec fn apply_vote(p: Proposal, weight: u128, in_favor: bool, weight_based: bool) -> Proposal {
    if weight_based {
        if in_favor {
            Proposal { for_votes: sat_add_u128(p.for_votes, weight), ..p }
        } else {
            p
        }
    } else {
        if in_favor {
            Proposal { for_votes: sat_add_u128(p.for_votes, 1), ..p }
        } else {
            Proposal { against_votes: sat_add_u128(p.against_votes, 1), ..p }
        }
    }
}

/// The proposal once execution has been triggered: only the terminal flag
/// moves, the creator and both tallies stay as they are.
pub open spec fn mark_executed(p: Proposal) -> Proposal {
    Proposal { executed: true, ..p }
}

/// What every state transition preserves of the proposals already stored:
/// no proposal is ever dropped or its id reused, creators never change,
/// tallies never decrease, and a proposal that has been executed never
/// changes again in any field (so `executed` moves false to true at most
/// once and never back).
pub open spec fn proposal_history_preserved(pre: Seq<Proposal>, post: Seq<Proposal>) -> bool {
    &&& pre.len() <= post.len()
    &&& forall|i: int| 0 <= i < pre.len() ==> (#[trigger] post[i]).creator == pre[i].creator
    &&& forall|i: int| 0 <= i < pre.len() ==> (#[trigger] post[i]).for_votes >= pre[i].for_votes
    &&& forall|i: int| 0 <= i < pre.len() ==> (#[trigger] post[i]).against_votes >= pre[i].against_votes
    &&& forall|i: int| 0 <= i < pre.len() && pre[i].executed ==> #[trigger] post[i] == pre[i]
    &&& forall|i: int| 0 <= i < pre.len() && pre[i].executed ==> (#[trigger] post[i]).executed
}

/// Preservation of the proposal history composes: across any sequence of
/// state transitions that each preserve it, no stored proposal loses votes
/// and no executed proposal ever changes again.
pub proof fn lemma_history_preservation_composes(
    a: Seq<Proposal>,
    b: Seq<Proposal>,
    c: Seq<Proposal>,
)
    requires
        proposal_history_preserved(a, b),
        proposal_history_preserved(b, c),
    ensures
        proposal_history_preserved(a, c),
{
}

/// A ballot never lowers a tally, and it never touches the creator or the
/// executed flag.
pub proof fn lemma_apply_vote_monotone(p: Proposal, weight: u128, in_favor: bool, weight_based: bool)
    ensures
        apply_vote(p, weight, in_favor, weight_based).for_votes >= p.for_votes,
        apply_vote(p, weight, in_favor, weight_based).against_votes >= p.against_votes,
        apply_vote(p, weight, in_favor, weight_based).creator == p.creator,
        apply_vote(p, weight, in_favor, weight_based).executed == p.executed,
{
}

} // verus!
