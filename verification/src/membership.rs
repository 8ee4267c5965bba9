use vstd::pervasive::VecAdditionalExecFns;
use vstd::prelude::*;

use crate::account::AccountId;

verus! {

/// The weight-based membership roll together with its execution
/// configuration.
///
/// `voting_power` is an insertion-ordered list; adding the same account
/// twice stores two entries and every scan counts them separately, while a
/// lookup or a removal touches only the first match. `voting_period` is
/// stored configuration that no operation currently reads.
#[derive(Debug)]
pub struct Dao {
    pub voting_power: Vec<(AccountId, u128)>,
    pub quorum: u128,
    pub voting_period: u128,
}

/// The two membership models the engine can run under.
///
/// Member-based: a keyed roll of activation flags; removal deactivates the
/// entry in place (a soft delete) and every active member's ballot counts
/// one. Weight-based: an ordered list of integer powers; removal deletes
/// the first matching entry outright.
#[derive(Debug)]
pub enum Membership {
    MemberBased { members: Vec<(AccountId, bool)> },
    WeightBased { dao: Dao },
}

/// The payload of the first entry of `s` recorded for `account`, if any
/// entry matches.
pub open spec fn first_entry<T>(s: Seq<(AccountId, T)>, account: AccountId) -> Option<T>
    decreases s.len(),
{
    if s.len() == 0 {
        None
    } else if s[0].0 == account {
        Some(s[0].1)
    } else {
        first_entry(s.skip(1), account)
    }
}

/// The accounts of the active entries of a member-based roll, in storage
/// order.
pub open spec fn active_accounts(s: Seq<(AccountId, bool)>) -> Seq<AccountId>
    decreases s.len(),
{
    if s.len() == 0 {
        Seq::<AccountId>::empty()
    } else {
        let rest = active_accounts(s.drop_last());
        if s.last().1 {
            rest.push(s.last().0)
        } else {
            rest
        }
    }
}

/// No two entries of the sequence are recorded for the same account.
pub open spec fn distinct_accounts<T>(s: Seq<(AccountId, T)>) -> bool {
    forall|i: int, j: int| 0 <= i < j < s.len() ==> (#[trigger] s[i]).0 != (#[trigger] s[j]).0
}

/// A roll reports no first entry for `account` exactly when no entry at
/// all is recorded for it.
pub proof fn lemma_first_entry_absent<T>(s: Seq<(AccountId, T)>, account: AccountId)
    ensures
        first_entry(s, account) is None <==> (forall|i: int|
            0 <= i < s.len() ==> (#[trigger] s[i]).0 != account),
    decreases s.len(),
{
    if s.len() > 0 {
        lemma_first_entry_absent(s.skip(1), account);
        assert forall|i: int| 1 <= i < s.len() implies (#[trigger] s[i]).0 == s.skip(1)[i - 1].0 by {
            assert(s.skip(1)[i - 1] == s[i]);
        }
    }
}

/// What a successful registration does to the roll.
///
/// Member-based mode activates the account's entry in place, appending one
/// if the account was never recorded, and ignores `power` (every member
/// counts one). Weight-based mode appends a fresh `(account, power)` entry
/// unconditionally, even when the account is already present.
pub open spec fn membership_added(pre: Membership, post: Membership, account: AccountId, power: u128) -> bool {
    match (pre, post) {
        (Membership::MemberBased { members: x }, Membership::MemberBased { members: y }) => {
            if first_entry(x@, account) is Some {
                exists|i: int|
                    #![trigger x@.update(i, (account, true))]
                    {
                        &&& 0 <= i < x@.len()
                        &&& x@[i].0 == account
                        &&& forall|j: int| 0 <= j < i ==> (#[trigger] x@[j]).0 != account
                        &&& y@ == x@.update(i, (account, true))
                    }
            } else {
                y@ == x@.push((account, true))
            }
        },
        (Membership::WeightBased { dao: x }, Membership::WeightBased { dao: y }) => {
            &&& y.voting_power@ == x.voting_power@.push((account, power))
            &&& y.quorum == x.quorum
            &&& y.voting_period == x.voting_period
        },
        _ => false,
    }
}

/// What a successful removal does to the roll.
///
/// Member-based mode deactivates the account's entry in place, keeping the
/// record. Weight-based mode deletes the first matching entry outright,
/// leaving any later duplicate in place.
pub open spec fn membership_removed(pre: Membership, post: Membership, account: AccountId) -> bool {
    match (pre, post) {
        (Membership::MemberBased { members: x }, Membership::MemberBased { members: y }) => {
            exists|i: int|
                #![trigger x@.update(i, (account, false))]
                {
                    &&& 0 <= i < x@.len()
                    &&& x@[i].0 == account
                    &&& forall|j: int| 0 <= j < i ==> (#[trigger] x@[j]).0 != account
                    &&& y@ == x@.update(i, (account, false))
                }
        },
        (Membership::WeightBased { dao: x }, Membership::WeightBased { dao: y }) => {
            &&& exists|i: int|
                #![trigger x.voting_power@.remove(i)]
                {
                    &&& 0 <= i < x.voting_power@.len()
                    &&& x.voting_power@[i].0 == account
                    &&& forall|j: int| 0 <= j < i ==> (#[trigger] x.voting_power@[j]).0 != account
                    &&& y.voting_power@ == x.voting_power@.remove(i)
                }
            &&& y.quorum == x.quorum
            &&& y.voting_period == x.voting_period
        },
        _ => false,
    }
}

/// Registration keeps the member-based registry keyed: a roll that holds
/// at most one entry per account still does after an account is added
/// (the entry is updated in place, or appended only when the account was
/// absent). The weight-based roll makes no such promise.
pub proof fn lemma_membership_added_keeps_distinct(
    pre: Membership,
    post: Membership,
    account: AccountId,
    power: u128,
)
    requires
        pre.wf(),
        membership_added(pre, post, account, power),
    ensures
        post.wf(),
{
    match (pre, post) {
        (Membership::MemberBased { members: x }, Membership::MemberBased { members: y }) => {
            if first_entry(x@, account) is Some {
                let i = choose|i: int|
                    #![trigger x@.update(i, (account, true))]
                    {
                        &&& 0 <= i < x@.len()
                        &&& x@[i].0 == account
                        &&& forall|j: int| 0 <= j < i ==> (#[trigger] x@[j]).0 != account
                        &&& y@ == x@.update(i, (account, true))
                    };
                assert forall|k: int| 0 <= k < y@.len() implies (#[trigger] y@[k]).0 == x@[k].0 by {}
            } else {
                lemma_first_entry_absent(x@, account);
            }
        },
        _ => {},
    }
}

/// Removal keeps the member-based registry keyed: deactivating an entry
/// in place never duplicates an account.
pub proof fn lemma_membership_removed_keeps_distinct(
    pre: Membership,
    post: Membership,
    account: AccountId,
)
    requires
        pre.wf(),
        membership_removed(pre, post, account),
    ensures
        post.wf(),
{
    match (pre, post) {
        (Membership::MemberBased { members: x }, Membership::MemberBased { members: y }) => {
            let i = choose|i: int|
                #![trigger x@.update(i, (account, false))]
                {
                    &&& 0 <= i < x@.len()
                    &&& x@[i].0 == account
                    &&& forall|j: int| 0 <= j < i ==> (#[trigger] x@[j]).0 != account
                    &&& y@ == x@.update(i, (account, false))
                };
            assert forall|k: int| 0 <= k < y@.len() implies (#[trigger] y@[k]).0 == x@[k].0 by {}
        },
        _ => {},
    }
}

/// The index of the first entry recorded for `account`, if any.
fn find_first<T>(entries: &Vec<(AccountId, T)>, account: AccountId) -> (r: Option<usize>)
    ensures
        match r {
            Some(i) => {
                &&& (i as int) < entries@.len()
                &&& entries@[i as int].0 == account
                &&& forall|j: int| 0 <= j < i ==> (#[trigger] entries@[j]).0 != account
                &&& first_entry(entries@, account) == Some(entries@[i as int].1)
            },
            None => {
                &&& first_entry(entries@, account) is None
                &&& forall|j: int| 0 <= j < entries@.len() ==> (#[trigger] entries@[j]).0 != account
            },
        },
{
    proof {
        assert(entries@.skip(0) =~= entries@);
    }
    let mut i: usize = 0;
    while i < entries.len()
        invariant
            i <= entries@.len(),
            forall|j: int| 0 <= j < i ==> (#[trigger] entries@[j]).0 != account,
            first_entry(entries@, account) == first_entry(entries@.skip(i as int), account),
        decreases entries@.len() - i,
    {
        proof {
            assert(entries@.skip(i as int)[0] == entries@[i as int]);
        }
        let pair = &entries[i];
        if pair.0 == account {
            return Some(i);
        }
        proof {
            assert(entries@.skip(i as int).skip(1) =~= entries@.skip(i as int + 1));
        }
        i = i + 1;
    }
    proof {
        assert(entries@.skip(i as int).len() == 0);
        assert(first_entry(entries@.skip(i as int), account) is None);
    }
    None
}

impl Membership {
    /// Whether this roll runs the weight-based model.
    pub open spec fn is_weight_based(self) -> bool {
        self is WeightBased
    }

    /// Well-formedness of the roll: a member-based registry is keyed, so it
    /// holds at most one entry per account. The weight-based list promises
    /// nothing (registering twice deliberately stores two entries).
    pub open spec fn wf(self) -> bool {
        match self {
            Membership::MemberBased { members } => distinct_accounts(members@),
            Membership::WeightBased { .. } => true,
        }
    }

    /// The voting weight recorded for `account`: the first stored power in
    /// weight-based mode, one for an active member in member-based mode,
    /// nothing for a non-member.
    pub open spec fn spec_voting_power(self, account: AccountId) -> Option<u128> {
        match self {
            Membership::MemberBased { members } => {
                if first_entry(members@, account) == Some(true) {
                    Some(1u128)
                } else {
                    None
                }
            },
            Membership::WeightBased { dao } => first_entry(dao.voting_power@, account),
        }
    }

    /// Whether `account` may vote under this roll.
    pub open spec fn spec_is_member(self, account: AccountId) -> bool {
        self.spec_voting_power(account) is Some
    }

    /// The weight `account`'s ballot would carry; zero for a non-member.
    pub open spec fn spec_power_of(self, account: AccountId) -> u128 {
        match self.spec_voting_power(account) {
            Some(w) => w,
            None => 0,
        }
    }

    /// The execution quorum; zero under the member-based model, which has
    /// no vote threshold.
    pub open spec fn spec_quorum(self) -> u128 {
        match self {
            Membership::MemberBased { .. } => 0,
            Membership::WeightBased { dao } => dao.quorum,
        }
    }

    /// The stored voting period configuration; zero under the member-based
    /// model. No operation reads it.
    pub open spec fn spec_voting_period(self) -> u128 {
        match self {
            Membership::MemberBased { .. } => 0,
            Membership::WeightBased { dao } => dao.voting_period,
        }
    }

    /// The accounts on the roll, in storage order: the active entries in
    /// member-based mode, every entry (duplicates included) in weight-based
    /// mode.
    pub open spec fn spec_members(self) -> Seq<AccountId> {
        match self {
            Membership::MemberBased { members } => active_accounts(members@),
            Membership::WeightBased { dao } => dao.voting_power@.map_values(|e: (AccountId, u128)| e.0),
        }
    }

    /// Executable query for the model this roll runs.
    pub fn is_weight_based_ex(&self) -> (r: bool)
        ensures
            r == self.is_weight_based(),
    {
        match self {
            Membership::MemberBased { .. } => false,
            Membership::WeightBased { .. } => true,
        }
    }

    /// Record `account` on the roll. Authorization is the engine's concern;
    /// this is the raw registry transition described by
    /// [`membership_added`].
    pub fn add_entry(&mut self, account: AccountId, power: u128)
        ensures
            membership_added(*old(self), *final(self), account, power),
    {
        match self {
            Membership::MemberBased { members } => {
                match find_first(members, account) {
                    Some(i) => {
                        members.set(i, (account, true));
                    },
                    None => {
                        members.push((account, true));
                    },
                }
            },
            Membership::WeightBased { dao } => {
                dao.voting_power.push((account, power));
            },
        }
    }

    /// Drop `account` from the roll, reporting whether it was a member.
    /// When it was not, the roll is left exactly as it was.
    pub fn remove_entry(&mut self, account: AccountId) -> (removed: bool)
        ensures
            removed == old(self).spec_is_member(account),
            removed ==> membership_removed(*old(self), *final(self), account),
            !removed ==> *final(self) == *old(self),
    {
        match self {
            Membership::MemberBased { members } => {
                match find_first(members, account) {
                    Some(i) => {
                        let active = members[i].1;
                        if active {
                            members.set(i, (account, false));
                            true
                        } else {
                            false
                        }
                    },
                    None => false,
                }
            },
            Membership::WeightBased { dao } => {
                match find_first(&dao.voting_power, account) {
                    Some(i) => {
                        dao.voting_power.remove(i);
                        true
                    },
                    None => false,
                }
            },
        }
    }

    /// The voting weight `account` carries, if it is a member.
    pub fn voting_power_of(&self, account: AccountId) -> (r: Option<u128>)
        ensures
            r == self.spec_voting_power(account),
    {
        match self {
            Membership::MemberBased { members } => {
                match find_first(members, account) {
                    Some(i) => {
                        if members[i].1 {
                            Some(1)
                        } else {
                            None
                        }
                    },
                    None => None,
                }
            },
            Membership::WeightBased { dao } => {
                match find_first(&dao.voting_power, account) {
                    Some(i) => Some(dao.voting_power[i].1),
                    None => None,
                }
            },
        }
    }

    /// Whether `account` may vote.
    pub fn is_member(&self, account: AccountId) -> (r: bool)
        ensures
            r == self.spec_is_member(account),
    {
        self.voting_power_of(account).is_some()
    }

    /// The accounts on the roll, in storage order.
    pub fn members(&self) -> (r: Vec<AccountId>)
        ensures
            r@ == self.spec_members(),
    {
        match self {
            Membership::MemberBased { members } => {
                let mut out: Vec<AccountId> = Vec::new();
                let mut i: usize = 0;
                while i < members.len()
                    invariant
                        i <= members@.len(),
                        out@ == active_accounts(members@.take(i as int)),
                    decreases members@.len() - i,
                {
                    let pair = &members[i];
                    if pair.1 {
                        out.push(pair.0);
                    }
                    proof {
                        assert(members@.take(i as int + 1).drop_last() =~= members@.take(i as int));
                        assert(members@.take(i as int + 1).last() == members@[i as int]);
                    }
                    i = i + 1;
                }
                proof {
                    assert(members@.take(members@.len() as int) =~= members@);
                }
                out
            },
            Membership::WeightBased { dao } => {
                let mut out: Vec<AccountId> = Vec::new();
                let mut i: usize = 0;
                while i < dao.voting_power.len()
                    invariant
                        i <= dao.voting_power@.len(),
                        out@.len() == i,
                        forall|j: int| 0 <= j < i ==> (#[trigger] out@[j]) == dao.voting_power@[j].0,
                    decreases dao.voting_power@.len() - i,
                {
                    let pair = &dao.voting_power[i];
                    out.push(pair.0);
                    i = i + 1;
                }
                proof {
                    assert(out@ =~= dao.voting_power@.map_values(|e: (AccountId, u128)| e.0));
                }
                out
            },
        }
    }

    /// How many accounts are on the roll.
    pub fn member_count(&self) -> (r: usize)
        ensures
            r as int == self.spec_members().len(),
    {
        match self {
            Membership::MemberBased { .. } => self.members().len(),
            Membership::WeightBased { dao } => dao.voting_power.len(),
        }
    }
}

} // verus!
