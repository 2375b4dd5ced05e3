//! Governance for a member organization: a member set with voting
//! thresholds, proposals that carry ordered lists of changes, vote tallies,
//! and execution that applies an approved proposal's changes exactly once and
//! all together, or not at all.
pub mod codec;
pub mod execution;
pub mod laws;
pub mod membership;
pub mod types;
pub mod voting;

pub use codec::{decode_dao_update, decode_member};
pub use execution::{apply_all_changes, apply_proposed_change, execute_proposal};
pub use membership::{
    add_member, apply_dao_update, change_voting_thresholds, create_dao, remove_member, update_dao,
};
pub use types::{
    is_member, ChangeType, DAOUpdate, Decision, GovError, Member, Proposal, ProposedChange, Pubkey,
    Vote, VoteType, VotingThresholds, DAO,
};

pub use voting::{create_proposal, evaluate, vote_on_proposal};
