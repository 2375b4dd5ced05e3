use vstd::prelude::*;

use crate::codec::{dao_update_of, decode_dao_update, decode_member, member_of};
use crate::membership::{apply_dao_update, update_outcome, with_members};
use crate::types::{
    changes_view, copy_dao, has_key, keys_view, position_of, ChangeType, ChangeView, DaoView,
    Decision, GovError, Proposal, ProposedChange, DAO,
};
use crate::voting::{approved, evaluate};

verus! {

/// `s` with its first occurrence of `k` replaced by `n`.
pub open spec fn replace_first(s: Seq<Seq<u8>>, k: Seq<u8>, n: Seq<u8>) -> Seq<Seq<u8>>
    decreases s.len(),
{
    if s.len() == 0 {
        s
    } else if s[0] == k {
        seq![n] + s.drop_first()
    } else {
        seq![s[0]] + replace_first(s.drop_first(), k, n)
    }
}

/// What one change does to an organization. A member change replaces the
/// target member by the member that its payload names; an organization change
/// applies the patch that its payload holds; other changes do nothing.
pub open spec fn apply_change(d: DaoView, c: ChangeView) -> Result<DaoView, GovError> {
    match c.kind {
        ChangeType::Other => Ok(d),
        ChangeType::UpdateDAO => match dao_update_of(c.data) {
            None => Err(GovError::MalformedChangePayload),
            Some(u) => if c.target != d.id {
                Err(GovError::NotFound)
            } else {
                update_outcome(d, u)
            },
        },
        ChangeType::UpdateMember => match member_of(c.data) {
            None => Err(GovError::MalformedChangePayload),
            Some((dao_id, new_key)) => if dao_id != d.id || !has_key(d.members, c.target) {
                Err(GovError::NotFound)
            } else {
                Ok(with_members(d, replace_first(d.members, c.target, new_key)))
            },
        },
    }
}

/// The changes applied in list order; the first failure is the outcome.
pub open spec fn apply_changes(d: DaoView, cs: Seq<ChangeView>) -> Result<DaoView, GovError>
    decreases cs.len(),
{
    if cs.len() == 0 {
        Ok(d)
    } else {
        match apply_change(d, cs[0]) {
            Err(e) => Err(e),
            Ok(d2) => apply_changes(d2, cs.drop_first()),
        }
    }
}

/// What executing a proposal does to the organization: nothing twice,
/// nothing before the thresholds are met, and otherwise all of its changes.
pub open spec fn execution(p: Proposal, d: DaoView) -> Result<DaoView, GovError> {
    if p.executed {
        Err(GovError::AlreadyExecuted)
    } else if !approved(p.tally(), d.thresholds) {
        Err(GovError::ApprovalNotMet)
    } else {
        apply_changes(d, changes_view(p.proposed_changes@))
    }
}

proof fn lemma_replace_first_at(s: Seq<Seq<u8>>, k: Seq<u8>, n: Seq<u8>, i: int)
    requires
        0 <= i < s.len(),
        s[i] == k,
        forall|j: int| 0 <= j < i ==> s[j] != k,
    ensures
        replace_first(s, k, n) == s.update(i, n),
    decreases s.len(),
{
    if i == 0 {
        assert(seq![n] + s.drop_first() =~= s.update(0, n));
    } else {
        let t = s.drop_first();
        assert forall|j: int| 0 <= j < i - 1 implies t[j] != k by {
            assert(t[j] == s[j + 1]);
        }
        lemma_replace_first_at(t, k, n, i - 1);
        assert(seq![s[0]] + t.update(i - 1, n) =~= s.update(i, n));
    }
}

/// Applies one change to an organization record.
pub fn apply_proposed_change(dao: &mut DAO, change: &ProposedChange) -> (r: Result<(), GovError>)
    ensures
        match apply_change(old(dao)@, change@) {
            Ok(d) => r is Ok && final(dao)@ == d,
            Err(e) => r == Err::<(), GovError>(e),
        },
{
    match change.change_type {
        ChangeType::Other => Ok(()),
        ChangeType::UpdateDAO => {
            match decode_dao_update(&change.data) {
                None => Err(GovError::MalformedChangePayload),
                Some(u) => {
                    if !change.target.same_key(&dao.id) {
                        return Err(GovError::NotFound);
                    }
                    apply_dao_update(dao, u)
                },
            }
        },
        ChangeType::UpdateMember => {
            match decode_member(&change.data) {
                None => Err(GovError::MalformedChangePayload),
                Some(m) => {
                    if !m.dao_id.same_key(&dao.id) {
                        return Err(GovError::NotFound);
                    }
                    match position_of(dao, &change.target) {
                        None => Err(GovError::NotFound),
                        Some(i) => {
                            let ghost ks = dao@.members;
                            proof {
                                lemma_replace_first_at(ks, change.target@, m.member_pubkey@, i as int);
                            }
                            dao.members.set(i, m.member_pubkey);
                            assert(keys_view(dao.members@) =~= ks.update(
                                i as int,
                                m.member_pubkey@,
                            ));
                            Ok(())
                        },
                    }
                },
            }
        },
    }
}

/// Applies a list of changes, in order, to an organization record. On failure
/// the record is left as it was: the changes go to a copy, which replaces the
/// record only once all of them have applied.
pub fn apply_all_changes(dao: &mut DAO, changes: &Vec<ProposedChange>) -> (r: Result<(), GovError>)
    ensures
        match apply_changes(old(dao)@, changes_view(changes@)) {
            Ok(d) => r is Ok && final(dao)@ == d,
            Err(e) => r == Err::<(), GovError>(e) && final(dao)@ == old(dao)@,
        },
{
    let ghost cs = changes_view(changes@);
    let mut work = copy_dao(dao);
    assert(cs.subrange(0, cs.len() as int) =~= cs);
    let mut i: usize = 0;
    while i < changes.len()
        invariant
            0 <= i <= changes@.len(),
            cs == changes_view(changes@),
            apply_changes(dao@, cs) == apply_changes(work@, cs.subrange(i as int, cs.len() as int)),
        decreases changes@.len() - i,
    {
        let ghost rest = cs.subrange(i as int, cs.len() as int);
        assert(rest[0] == changes@[i as int]@);
        assert(rest.drop_first() =~= cs.subrange(i + 1, cs.len() as int));
        match apply_proposed_change(&mut work, &changes[i]) {
            Err(e) => {
                return Err(e);
            },
            Ok(()) => {},
        }
        i = i + 1;
    }
    assert(cs.subrange(i as int, cs.len() as int) =~= Seq::<ChangeView>::empty());
    *dao = work;
    Ok(())
}

/// Executes an approved proposal once: all of its changes apply, in list
/// order, and the proposal is marked executed; or nothing changes and the
/// error says why.
pub fn execute_proposal(proposal: &mut Proposal, dao: &mut DAO) -> (r: Result<(), GovError>)
    ensures
        match execution(*old(proposal), old(dao)@) {
            Ok(d) => r is Ok && final(dao)@ == d && final(proposal).executed,
            Err(e) => r == Err::<(), GovError>(e) && final(dao)@ == old(dao)@
                && final(proposal).executed == old(proposal).executed,
        },
        old(proposal).executed ==> r == Err::<(), GovError>(GovError::AlreadyExecuted),
        !old(proposal).executed && !approved(old(proposal).tally(), old(dao)@.thresholds) ==> r
            == Err::<(), GovError>(GovError::ApprovalNotMet) && !final(proposal).executed,
        final(proposal).same_record(old(proposal)),
        final(proposal).tally() == old(proposal).tally(),
{
    if proposal.executed {
        return Err(GovError::AlreadyExecuted);
    }
    match evaluate(proposal, &dao.voting_thresholds) {
        Decision::Rejected => {
            return Err(GovError::ApprovalNotMet);
        },
        Decision::Approved => {},
    }
    apply_all_changes(dao, &proposal.proposed_changes)?;
    proposal.executed = true;
    Ok(())
}

} // verus!
