use vstd::prelude::*;

verus! {

/// A 32-byte account identity (an organization, a member, a proposer).
#[derive(Clone, Copy, Debug, PartialEq, Eq)]
pub struct Pubkey {
    pub bytes: [u8; 32],
}

impl View for Pubkey {
    type V = Seq<u8>;

    open spec fn view(&self) -> Seq<u8> {
        self.bytes@
    }
}

impl Pubkey {
    pub fn new_from_array(bytes: [u8; 32]) -> (r: Pubkey)
        ensures
            r@ == bytes@,
    {
        Pubkey { bytes }
    }

    pub fn to_bytes(&self) -> (r: [u8; 32])
        ensures
            r@ == self@,
    {
        self.bytes
    }

    /// Byte-wise comparison of two identities.
    pub fn same_key(&self, other: &Pubkey) -> (r: bool)
        ensures
            r == (self@ == other@),
    {
        let mut i: usize = 0;
        while i < 32
            invariant
                0 <= i <= 32,
                self.bytes@.len() == 32,
                other.bytes@.len() == 32,
                forall|j: int| 0 <= j < i ==> self.bytes@[j] == other.bytes@[j],
            decreases 32 - i,
        {
            if self.bytes[i] != other.bytes[i] {
                return false;
            }
            i = i + 1;
        }
        assert(self.bytes@ =~= other.bytes@);
        true
    }
}

/// The byte strings of a list of identities.
pub open spec fn keys_view(ks: Seq<Pubkey>) -> Seq<Seq<u8>> {
    ks.map_values(|k: Pubkey| k@)
}

#[derive(Clone, Copy, Debug, PartialEq, Eq, Structural)]
pub struct VotingThresholds {
    pub proposal_creation_threshold: u64,
    pub vote_approval_threshold: u64,
    pub vote_participation_threshold: u64,
}

#[derive(Clone, Copy, Debug, PartialEq, Eq, Structural)]
pub enum VoteType {
    Yes,
    No,
    Abstain,
}

#[derive(Clone, Copy, Debug, PartialEq, Eq, Structural)]
pub enum ChangeType {
    UpdateMember,
    UpdateDAO,
    Other,
}

#[derive(Clone, Copy, Debug, PartialEq, Eq)]
pub struct Vote {
    pub proposal_id: u64,
    pub voter: Pubkey,
    pub vote_type: VoteType,
}

#[derive(Clone, Copy, Debug, PartialEq, Eq)]
pub struct Member {
    pub dao_id: Pubkey,
    pub member_pubkey: Pubkey,
}

/// Everything that can go wrong in a governance operation.
#[derive(Clone, Copy, Debug, PartialEq, Eq, Structural)]
pub enum GovError {
    NotFound,
    AlreadyExists,
    ApprovalNotMet,
    AlreadyExecuted,
    MalformedChangePayload,
    Unauthorized,
}

/// The outcome of weighing a proposal's tallies against the thresholds.
#[derive(Clone, Copy, Debug, PartialEq, Eq, Structural)]
pub enum Decision {
    Approved,
    Rejected,
}

#[derive(Clone, Debug, PartialEq, Eq)]
pub struct DAO {
    pub id: Pubkey,
    pub name: String,
    pub description: String,
    pub members: Vec<Pubkey>,
    pub voting_thresholds: VotingThresholds,
}

/// The mathematical content of an organization record.
pub struct DaoView {
    pub id: Seq<u8>,
    pub name: Seq<char>,
    pub description: Seq<char>,
    pub members: Seq<Seq<u8>>,
    pub thresholds: VotingThresholds,
}

impl View for DAO {
    type V = DaoView;

    open spec fn view(&self) -> DaoView {
        DaoView {
            id: self.id@,
            name: self.name@,
            description: self.description@,
            members: keys_view(self.members@),
            thresholds: self.voting_thresholds,
        }
    }
}

#[derive(Clone, Debug, PartialEq, Eq)]
pub struct DAOUpdate {
    pub dao_id: Pubkey,
    pub new_name: Option<String>,
    pub new_description: Option<String>,
    pub new_members: Option<Vec<Pubkey>>,
    pub new_voting_thresholds: Option<VotingThresholds>,
}

/// The mathematical content of an organization patch.
pub struct DaoUpdateView {
    pub dao_id: Seq<u8>,
    pub new_name: Option<Seq<char>>,
    pub new_description: Option<Seq<char>>,
    pub new_members: Option<Seq<Seq<u8>>>,
    pub new_thresholds: Option<VotingThresholds>,
}

impl View for DAOUpdate {
    type V = DaoUpdateView;

    open spec fn view(&self) -> DaoUpdateView {
        DaoUpdateView {
            dao_id: self.dao_id@,
            new_name: match self.new_name {
                Some(s) => Some(s@),
                None => None,
            },
            new_description: match self.new_description {
                Some(s) => Some(s@),
                None => None,
            },
            new_members: match self.new_members {
                Some(m) => Some(keys_view(m@)),
                None => None,
            },
            new_thresholds: self.new_voting_thresholds,
        }
    }
}

#[derive(Clone, Debug, PartialEq, Eq)]
pub struct ProposedChange {
    pub change_type: ChangeType,
    pub target: Pubkey,
    pub data: Vec<u8>,
}

/// The mathematical content of one proposed change.
pub struct ChangeView {
    pub kind: ChangeType,
    pub target: Seq<u8>,
    pub data: Seq<u8>,
}

impl View for ProposedChange {
    type V = ChangeView;

    open spec fn view(&self) -> ChangeView {
        ChangeView { kind: self.change_type, target: self.target@, data: self.data@ }
    }
}

/// The changes of a proposal, in list order.
pub open spec fn changes_view(cs: Seq<ProposedChange>) -> Seq<ChangeView> {
    cs.map_values(|c: ProposedChange| c@)
}

#[derive(Clone, Debug, PartialEq, Eq)]
pub struct Proposal {
    pub id: u64,
    pub title: String,
    pub description: String,
    pub proposed_changes: Vec<ProposedChange>,
    pub proposer: Pubkey,
    pub start_time: u64,
    pub end_time: u64,
    pub yes_votes: u64,
    pub no_votes: u64,
    pub abstain_votes: u64,
    pub executed: bool,
}

/// The three running vote counters of a proposal.
pub struct Tally {
    pub yes: int,
    pub no: int,
    pub abstain: int,
}

impl Proposal {
    pub open spec fn tally(&self) -> Tally {
        Tally { yes: self.yes_votes as int, no: self.no_votes as int, abstain: self.abstain_votes as int }
    }

    /// Everything but the counters and the execution flag.
    pub open spec fn same_record(&self, other: &Proposal) -> bool {
        &&& self.id == other.id
        &&& self.title@ == other.title@
        &&& self.description@ == other.description@
        &&& changes_view(self.proposed_changes@) == changes_view(other.proposed_changes@)
        &&& self.proposer == other.proposer
        &&& self.start_time == other.start_time
        &&& self.end_time == other.end_time
    }
}

/// Whether `k` occurs among the identities `ks`.
pub open spec fn has_key(ks: Seq<Seq<u8>>, k: Seq<u8>) -> bool {
    exists|i: int| 0 <= i < ks.len() && ks[i] == k
}

/// The position of the first occurrence of `m` among the members.
pub fn position_of(dao: &DAO, m: &Pubkey) -> (r: Option<usize>)
    ensures
        r is None <==> !has_key(dao@.members, m@),
        r matches Some(i) ==> i < dao@.members.len() && dao@.members[i as int] == m@ && forall|
            j: int,
        |
            0 <= j < i ==> dao@.members[j] != m@,
{
    let mut i: usize = 0;
    while i < dao.members.len()
        invariant
            0 <= i <= dao.members@.len(),
            forall|j: int| 0 <= j < i ==> dao@.members[j] != m@,
        decreases dao.members@.len() - i,
    {
        if dao.members[i].same_key(m) {
            assert(dao@.members[i as int] == m@);
            return Some(i);
        }
        i = i + 1;
    }
    assert(!has_key(dao@.members, m@));
    None
}

/// Whether `m` belongs to the organization.
pub fn is_member(dao: &DAO, m: &Pubkey) -> (r: bool)
    ensures
        r == has_key(dao@.members, m@),
{
    position_of(dao, m).is_some()
}

/// A copy of an organization record.
pub fn copy_dao(dao: &DAO) -> (r: DAO)
    ensures
        r@ == dao@,
{
    let mut members: Vec<Pubkey> = Vec::new();
    let mut i: usize = 0;
    while i < dao.members.len()
        invariant
            0 <= i <= dao.members@.len(),
            members@ == dao.members@.subrange(0, i as int),
        decreases dao.members@.len() - i,
    {
        members.push(dao.members[i]);
        i = i + 1;
        assert(members@ =~= dao.members@.subrange(0, i as int));
    }
    assert(members@ =~= dao.members@);
    DAO {
        id: dao.id,
        name: dao.name.clone(),
        description: dao.description.clone(),
        members,
        voting_thresholds: dao.voting_thresholds,
    }
}

} // verus!
