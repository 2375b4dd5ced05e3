use vstd::prelude::*;

use crate::types::{
    has_key, is_member, keys_view, position_of, DaoUpdateView, DaoView, GovError, Member, Pubkey,
    VotingThresholds, DAO, DAOUpdate,
};

verus! {

/// `s` without the first occurrence of `k`; `s` itself where `k` does not occur.
pub open spec fn remove_first(s: Seq<Seq<u8>>, k: Seq<u8>) -> Seq<Seq<u8>>
    decreases s.len(),
{
    if s.len() == 0 {
        s
    } else if s[0] == k {
        s.drop_first()
    } else {
        seq![s[0]] + remove_first(s.drop_first(), k)
    }
}

pub open spec fn with_members(d: DaoView, members: Seq<Seq<u8>>) -> DaoView {
    DaoView { members, ..d }
}

pub open spec fn with_thresholds(d: DaoView, thresholds: VotingThresholds) -> DaoView {
    DaoView { thresholds, ..d }
}

/// Each field present in the patch replaces the record's field; the others stay.
pub open spec fn patched(d: DaoView, u: DaoUpdateView) -> DaoView {
    DaoView {
        id: d.id,
        name: match u.new_name {
            Some(n) => n,
            None => d.name,
        },
        description: match u.new_description {
            Some(n) => n,
            None => d.description,
        },
        members: match u.new_members {
            Some(m) => m,
            None => d.members,
        },
        thresholds: match u.new_thresholds {
            Some(t) => t,
            None => d.thresholds,
        },
    }
}

/// A patch applies only to the organization it names.
pub open spec fn update_outcome(d: DaoView, u: DaoUpdateView) -> Result<DaoView, GovError> {
    if u.dao_id != d.id {
        Err(GovError::NotFound)
    } else {
        Ok(patched(d, u))
    }
}

/// The guard in front of a member-driven change of an organization: the
/// request must name this organization, and the caller must belong to it.
pub open spec fn guard(d: DaoView, target: Seq<u8>, caller: Seq<u8>) -> Option<GovError> {
    if target != d.id {
        Some(GovError::NotFound)
    } else if !has_key(d.members, caller) {
        Some(GovError::Unauthorized)
    } else {
        None
    }
}

proof fn lemma_remove_first_at(s: Seq<Seq<u8>>, k: Seq<u8>, i: int)
    requires
        0 <= i < s.len(),
        s[i] == k,
        forall|j: int| 0 <= j < i ==> s[j] != k,
    ensures
        remove_first(s, k) == s.remove(i),
    decreases s.len(),
{
    if i == 0 {
        assert(s.remove(0) =~= s.drop_first());
    } else {
        let t = s.drop_first();
        assert forall|j: int| 0 <= j < i - 1 implies t[j] != k by {
            assert(t[j] == s[j + 1]);
        }
        lemma_remove_first_at(t, k, i - 1);
        assert(seq![s[0]] + t.remove(i - 1) =~= s.remove(i));
    }
}

proof fn lemma_remove_first_absent(s: Seq<Seq<u8>>, k: Seq<u8>)
    requires
        !has_key(s, k),
    ensures
        remove_first(s, k) == s,
    decreases s.len(),
{
    if s.len() > 0 {
        let t = s.drop_first();
        assert(s[0] != k);
        assert(!has_key(t, k)) by {
            if has_key(t, k) {
                let j = choose|j: int| 0 <= j < t.len() && t[j] == k;
                assert(s[j + 1] == k);
            }
        }
        lemma_remove_first_absent(t, k);
        assert(seq![s[0]] + t =~= s);
    }
}

fn check_guard(dao: &DAO, target: &Pubkey, caller: &Pubkey) -> (r: Option<GovError>)
    ensures
        r == guard(dao@, target@, caller@),
{
    if !target.same_key(&dao.id) {
        Some(GovError::NotFound)
    } else if !is_member(dao, caller) {
        Some(GovError::Unauthorized)
    } else {
        None
    }
}

/// Stores a new organization record in an empty slot.
pub fn create_dao(account: &mut Option<DAO>, dao: DAO) -> (r: Result<(), GovError>)
    ensures
        old(account).is_some() ==> r == Err::<(), GovError>(GovError::AlreadyExists)
            && *final(account) == *old(account),
        old(account).is_none() ==> r is Ok && *final(account) == Some(dao),
{
    if account.is_some() {
        return Err(GovError::AlreadyExists);
    }
    *account = Some(dao);
    Ok(())
}

/// Applies a patch to the organization it names; fails with `NotFound` on
/// any other organization, leaving the record as it was.
pub fn apply_dao_update(dao: &mut DAO, dao_update: DAOUpdate) -> (r: Result<(), GovError>)
    ensures
        match update_outcome(old(dao)@, dao_update@) {
            Ok(d) => r is Ok && final(dao)@ == d,
            Err(e) => r == Err::<(), GovError>(e) && final(dao)@ == old(dao)@,
        },
{
    if !dao_update.dao_id.same_key(&dao.id) {
        return Err(GovError::NotFound);
    }
    let DAOUpdate { dao_id: _, new_name, new_description, new_members, new_voting_thresholds } =
        dao_update;
    if let Some(n) = new_name {
        dao.name = n;
    }
    if let Some(d) = new_description {
        dao.description = d;
    }
    if let Some(m) = new_members {
        dao.members = m;
    }
    if let Some(t) = new_voting_thresholds {
        dao.voting_thresholds = t;
    }
    Ok(())
}

/// A member's patch of the organization: present fields replace, absent
/// fields stay.
pub fn update_dao(dao: &mut DAO, caller: &Pubkey, dao_update: DAOUpdate) -> (r: Result<
    (),
    GovError,
>)
    ensures
        match guard(old(dao)@, dao_update.dao_id@, caller@) {
            Some(e) => r == Err::<(), GovError>(e) && final(dao)@ == old(dao)@,
            None => r is Ok && final(dao)@ == patched(old(dao)@, dao_update@),
        },
{
    if let Some(e) = check_guard(dao, &dao_update.dao_id, caller) {
        return Err(e);
    }
    apply_dao_update(dao, dao_update)
}

/// Appends a member; duplicates are kept.
pub fn add_member(dao: &mut DAO, caller: &Pubkey, member: Member) -> (r: Result<(), GovError>)
    ensures
        match guard(old(dao)@, member.dao_id@, caller@) {
            Some(e) => r == Err::<(), GovError>(e) && final(dao)@ == old(dao)@,
            None => r is Ok && final(dao)@ == with_members(
                old(dao)@,
                old(dao)@.members.push(member.member_pubkey@),
            ),
        },
{
    if let Some(e) = check_guard(dao, &member.dao_id, caller) {
        return Err(e);
    }
    dao.members.push(member.member_pubkey);
    assert(keys_view(dao.members@) =~= keys_view(old(dao).members@).push(member.member_pubkey@));
    Ok(())
}

/// Removes the first occurrence of a member; a member that is not there
/// leaves the record as it was, and the call still succeeds.
pub fn remove_member(dao: &mut DAO, caller: &Pubkey, member: Member) -> (r: Result<(), GovError>)
    ensures
        match guard(old(dao)@, member.dao_id@, caller@) {
            Some(e) => r == Err::<(), GovError>(e) && final(dao)@ == old(dao)@,
            None => r is Ok && final(dao)@ == with_members(
                old(dao)@,
                remove_first(old(dao)@.members, member.member_pubkey@),
            ),
        },
        !has_key(old(dao)@.members, member.member_pubkey@) ==> final(dao)@ == old(dao)@,
{
    if let Some(e) = check_guard(dao, &member.dao_id, caller) {
        return Err(e);
    }
    let ghost ks = dao@.members;
    match position_of(dao, &member.member_pubkey) {
        Some(i) => {
            proof {
                lemma_remove_first_at(ks, member.member_pubkey@, i as int);
            }
            dao.members.remove(i);
            assert(keys_view(dao.members@) =~= ks.remove(i as int));
        },
        None => {
            proof {
                lemma_remove_first_absent(ks, member.member_pubkey@);
            }
        },
    }
    Ok(())
}

/// Replaces the organization's thresholds.
pub fn change_voting_thresholds(
    dao: &mut DAO,
    caller: &Pubkey,
    thresholds: VotingThresholds,
) -> (r: Result<(), GovError>)
    ensures
        match guard(old(dao)@, old(dao)@.id, caller@) {
            Some(e) => r == Err::<(), GovError>(e) && final(dao)@ == old(dao)@,
            None => r is Ok && final(dao)@ == with_thresholds(old(dao)@, thresholds),
        },
{
    if !is_member(dao, caller) {
        return Err(GovError::Unauthorized);
    }
    dao.voting_thresholds = thresholds;
    Ok(())
}

} // verus!
