use vstd::prelude::*;

use crate::types::{
    has_key, is_member, Decision, GovError, Proposal, Tally, Vote, VoteType, VotingThresholds, DAO,
};

verus! {

/// One counted vote: exactly one counter goes up by one.
pub open spec fn add_vote(t: Tally, v: VoteType) -> Tally {
    match v {
        VoteType::Yes => Tally { yes: t.yes + 1, ..t },
        VoteType::No => Tally { no: t.no + 1, ..t },
        VoteType::Abstain => Tally { abstain: t.abstain + 1, ..t },
    }
}

/// The tally after the votes `vs`, cast in order, each one counted.
pub open spec fn cast_votes(t: Tally, vs: Seq<VoteType>) -> Tally
    decreases vs.len(),
{
    if vs.len() == 0 {
        t
    } else {
        add_vote(cast_votes(t, vs.drop_last()), vs.last())
    }
}

/// The counter that a vote of type `v` goes to.
pub open spec fn counter(t: Tally, v: VoteType) -> int {
    match v {
        VoteType::Yes => t.yes,
        VoteType::No => t.no,
        VoteType::Abstain => t.abstain,
    }
}

pub open spec fn total_votes(t: Tally) -> int {
    t.yes + t.no + t.abstain
}

/// Enough votes were cast, and enough of them were in favour.
pub open spec fn approved(t: Tally, th: VotingThresholds) -> bool {
    &&& total_votes(t) >= th.vote_participation_threshold
    &&& t.yes >= th.vote_approval_threshold
}

/// Weighs a proposal's tallies against the thresholds.
pub fn evaluate(proposal: &Proposal, thresholds: &VotingThresholds) -> (r: Decision)
    ensures
        r == (if approved(proposal.tally(), *thresholds) {
            Decision::Approved
        } else {
            Decision::Rejected
        }),
{
    let total: u128 = proposal.yes_votes as u128 + proposal.no_votes as u128
        + proposal.abstain_votes as u128;
    if total >= thresholds.vote_participation_threshold as u128 && proposal.yes_votes
        >= thresholds.vote_approval_threshold {
        Decision::Approved
    } else {
        Decision::Rejected
    }
}

/// Stores a proposal, as given, in an empty slot; its proposer must belong
/// to the organization.
pub fn create_proposal(account: &mut Option<Proposal>, dao: &DAO, proposal: Proposal) -> (r:
    Result<(), GovError>)
    ensures
        old(account).is_some() ==> r == Err::<(), GovError>(GovError::AlreadyExists),
        old(account).is_none() && !has_key(dao@.members, proposal.proposer@) ==> r == Err::<
            (),
            GovError,
        >(GovError::Unauthorized),
        old(account).is_none() && has_key(dao@.members, proposal.proposer@) ==> r is Ok,
        r is Ok ==> *final(account) == Some(proposal),
        r is Err ==> *final(account) == *old(account),
{
    if account.is_some() {
        return Err(GovError::AlreadyExists);
    }
    if !is_member(dao, &proposal.proposer) {
        return Err(GovError::Unauthorized);
    }
    *account = Some(proposal);
    Ok(())
}

/// Counts one vote of a member on a proposal. Votes are not deduplicated:
/// each call counts.
pub fn vote_on_proposal(proposal: &mut Proposal, dao: &DAO, vote: Vote) -> (r: Result<
    (),
    GovError,
>)
    requires
        counter(old(proposal).tally(), vote.vote_type) < u64::MAX,
    ensures
        vote.proposal_id != old(proposal).id ==> r == Err::<(), GovError>(GovError::NotFound),
        vote.proposal_id == old(proposal).id && !has_key(dao@.members, vote.voter@) ==> r
            == Err::<(), GovError>(GovError::Unauthorized),
        vote.proposal_id == old(proposal).id && has_key(dao@.members, vote.voter@) ==> r is Ok,
        r is Ok ==> final(proposal).tally() == add_vote(old(proposal).tally(), vote.vote_type),
        r is Err ==> final(proposal).tally() == old(proposal).tally(),
        final(proposal).same_record(old(proposal)),
        final(proposal).executed == old(proposal).executed,
{
    if vote.proposal_id != proposal.id {
        return Err(GovError::NotFound);
    }
    if !is_member(dao, &vote.voter) {
        return Err(GovError::Unauthorized);
    }
    match vote.vote_type {
        VoteType::Yes => proposal.yes_votes = proposal.yes_votes + 1,
        VoteType::No => proposal.no_votes = proposal.no_votes + 1,
        VoteType::Abstain => proposal.abstain_votes = proposal.abstain_votes + 1,
    }
    Ok(())
}

} // verus!
