use tahu_dao::{
    add_member, apply_all_changes, change_voting_thresholds, create_dao, create_proposal,
    decode_dao_update, decode_member, evaluate, execute_proposal, is_member, remove_member,
    update_dao, vote_on_proposal, ChangeType, DAOUpdate, Decision, GovError, Member, Proposal,
    ProposedChange, Pubkey, Vote, VoteType, VotingThresholds, DAO,
};

fn key(n: u8) -> Pubkey {
    Pubkey::new_from_array([n; 32])
}

fn thresholds(creation: u64, approval: u64, participation: u64) -> VotingThresholds {
    VotingThresholds {
        proposal_creation_threshold: creation,
        vote_approval_threshold: approval,
        vote_participation_threshold: participation,
    }
}

fn dao_with(members: Vec<Pubkey>, t: VotingThresholds) -> DAO {
    DAO {
        id: key(200),
        name: "guild".to_string(),
        description: "v1".to_string(),
        members,
        voting_thresholds: t,
    }
}

fn five_members() -> Vec<Pubkey> {
    vec![key(1), key(2), key(3), key(4), key(5)]
}

fn proposal_with(changes: Vec<ProposedChange>) -> Proposal {
    Proposal {
        id: 7,
        title: "t".to_string(),
        description: "d".to_string(),
        proposed_changes: changes,
        proposer: key(1),
        start_time: 10,
        end_time: 20,
        yes_votes: 0,
        no_votes: 0,
        abstain_votes: 0,
        executed: false,
    }
}

fn push_opt_str(out: &mut Vec<u8>, s: Option<&str>) {
    match s {
        None => out.push(0),
        Some(s) => {
            out.push(1);
            out.extend_from_slice(&(s.len() as u32).to_le_bytes());
            out.extend_from_slice(s.as_bytes());
        }
    }
}

fn update_payload(
    dao_id: Pubkey,
    name: Option<&str>,
    description: Option<&str>,
    members: Option<Vec<Pubkey>>,
    t: Option<VotingThresholds>,
) -> Vec<u8> {
    let mut out = dao_id.to_bytes().to_vec();
    push_opt_str(&mut out, name);
    push_opt_str(&mut out, description);
    match members {
        None => out.push(0),
        Some(ms) => {
            out.push(1);
            out.extend_from_slice(&(ms.len() as u32).to_le_bytes());
            for m in ms {
                out.extend_from_slice(&m.to_bytes());
            }
        }
    }
    match t {
        None => out.push(0),
        Some(t) => {
            out.push(1);
            out.extend_from_slice(&t.proposal_creation_threshold.to_le_bytes());
            out.extend_from_slice(&t.vote_approval_threshold.to_le_bytes());
            out.extend_from_slice(&t.vote_participation_threshold.to_le_bytes());
        }
    }
    out
}

fn member_payload(dao_id: Pubkey, m: Pubkey) -> Vec<u8> {
    let mut out = dao_id.to_bytes().to_vec();
    out.extend_from_slice(&m.to_bytes());
    out
}

fn vote(voter: Pubkey, t: VoteType) -> Vote {
    Vote { proposal_id: 7, voter, vote_type: t }
}

#[test]
fn end_to_end_description_change() {
    let mut slot: Option<DAO> = None;
    let dao = dao_with(five_members(), thresholds(1, 3, 5));
    assert_eq!(create_dao(&mut slot, dao), Ok(()));
    let mut dao = slot.unwrap();

    let change = ProposedChange {
        change_type: ChangeType::UpdateDAO,
        target: key(200),
        data: update_payload(key(200), None, Some("v2"), None, None),
    };
    let mut pslot: Option<Proposal> = None;
    assert_eq!(create_proposal(&mut pslot, &dao, proposal_with(vec![change])), Ok(()));
    let mut p = pslot.unwrap();

    for i in 1..=3u8 {
        assert_eq!(vote_on_proposal(&mut p, &dao, vote(key(i), VoteType::Yes)), Ok(()));
    }
    for i in 4..=5u8 {
        assert_eq!(vote_on_proposal(&mut p, &dao, vote(key(i), VoteType::Abstain)), Ok(()));
    }
    assert_eq!((p.yes_votes, p.no_votes, p.abstain_votes), (3, 0, 2));

    assert_eq!(execute_proposal(&mut p, &mut dao), Ok(()));
    assert_eq!(dao.description, "v2");
    assert_eq!(dao.name, "guild");
    assert_eq!(dao.members, five_members());
    assert!(p.executed);
}

#[test]
fn repeated_votes_all_count() {
    let dao = dao_with(five_members(), thresholds(1, 1, 1));
    let mut p = proposal_with(vec![]);
    for _ in 0..4 {
        assert_eq!(vote_on_proposal(&mut p, &dao, vote(key(2), VoteType::No)), Ok(()));
    }
    assert_eq!((p.yes_votes, p.no_votes, p.abstain_votes), (0, 4, 0));
}

#[test]
fn vote_errors() {
    let dao = dao_with(five_members(), thresholds(1, 1, 1));
    let mut p = proposal_with(vec![]);
    let stranger = vote(key(9), VoteType::Yes);
    assert_eq!(vote_on_proposal(&mut p, &dao, stranger), Err(GovError::Unauthorized));
    let other = Vote { proposal_id: 8, voter: key(1), vote_type: VoteType::Yes };
    assert_eq!(vote_on_proposal(&mut p, &dao, other), Err(GovError::NotFound));
    assert_eq!((p.yes_votes, p.no_votes, p.abstain_votes), (0, 0, 0));
}

#[test]
fn execute_below_thresholds_is_rejected() {
    let mut dao = dao_with(five_members(), thresholds(1, 3, 5));
    let change = ProposedChange {
        change_type: ChangeType::UpdateDAO,
        target: key(200),
        data: update_payload(key(200), Some("renamed"), None, None, None),
    };
    let mut p = proposal_with(vec![change]);
    p.yes_votes = 3;
    p.no_votes = 1;
    let before = dao.clone();
    assert_eq!(execute_proposal(&mut p, &mut dao), Err(GovError::ApprovalNotMet));
    assert!(!p.executed);
    assert_eq!(dao, before);

    p.yes_votes = 2;
    p.no_votes = 3;
    assert_eq!(execute_proposal(&mut p, &mut dao), Err(GovError::ApprovalNotMet));
    assert_eq!(dao, before);
}

#[test]
fn execute_twice_fails() {
    let mut dao = dao_with(five_members(), thresholds(1, 0, 0));
    let mut p = proposal_with(vec![]);
    assert_eq!(execute_proposal(&mut p, &mut dao), Ok(()));
    assert!(p.executed);
    let before = dao.clone();
    assert_eq!(execute_proposal(&mut p, &mut dao), Err(GovError::AlreadyExecuted));
    assert_eq!(dao, before);
}

#[test]
fn malformed_change_leaves_nothing_applied() {
    let mut dao = dao_with(five_members(), thresholds(1, 0, 0));
    let first = ProposedChange {
        change_type: ChangeType::UpdateDAO,
        target: key(200),
        data: update_payload(key(200), Some("renamed"), None, None, None),
    };
    let second = ProposedChange {
        change_type: ChangeType::UpdateMember,
        target: key(1),
        data: vec![1, 2, 3],
    };
    let mut p = proposal_with(vec![first, second]);
    let before = dao.clone();
    assert_eq!(execute_proposal(&mut p, &mut dao), Err(GovError::MalformedChangePayload));
    assert_eq!(dao, before);
    assert!(!p.executed);
}

#[test]
fn changes_apply_in_order() {
    let mut dao = dao_with(five_members(), thresholds(1, 0, 0));
    let changes = vec![
        ProposedChange {
            change_type: ChangeType::UpdateDAO,
            target: key(200),
            data: update_payload(key(200), Some("first"), None, None, None),
        },
        ProposedChange { change_type: ChangeType::Other, target: key(0), data: vec![9] },
        ProposedChange {
            change_type: ChangeType::UpdateDAO,
            target: key(200),
            data: update_payload(key(200), Some("second"), None, None, Some(thresholds(4, 5, 6))),
        },
        ProposedChange {
            change_type: ChangeType::UpdateMember,
            target: key(3),
            data: member_payload(key(200), key(33)),
        },
    ];
    assert_eq!(apply_all_changes(&mut dao, &changes), Ok(()));
    assert_eq!(dao.name, "second");
    assert_eq!(dao.voting_thresholds, thresholds(4, 5, 6));
    assert_eq!(dao.members, vec![key(1), key(2), key(33), key(4), key(5)]);
}

#[test]
fn change_for_another_dao_is_not_found() {
    let mut dao = dao_with(five_members(), thresholds(1, 0, 0));
    let before = dao.clone();
    let wrong_target = vec![ProposedChange {
        change_type: ChangeType::UpdateDAO,
        target: key(201),
        data: update_payload(key(200), Some("x"), None, None, None),
    }];
    assert_eq!(apply_all_changes(&mut dao, &wrong_target), Err(GovError::NotFound));
    let absent_member = vec![ProposedChange {
        change_type: ChangeType::UpdateMember,
        target: key(42),
        data: member_payload(key(200), key(43)),
    }];
    assert_eq!(apply_all_changes(&mut dao, &absent_member), Err(GovError::NotFound));
    assert_eq!(dao, before);
}

#[test]
fn evaluate_exact_thresholds() {
    let mut p = proposal_with(vec![]);
    p.yes_votes = 3;
    p.abstain_votes = 2;
    assert_eq!(evaluate(&p, &thresholds(1, 3, 5)), Decision::Approved);
    assert_eq!(evaluate(&p, &thresholds(1, 4, 5)), Decision::Rejected);
    assert_eq!(evaluate(&p, &thresholds(1, 3, 6)), Decision::Rejected);
    p.yes_votes = u64::MAX;
    p.no_votes = u64::MAX;
    assert_eq!(evaluate(&p, &thresholds(0, u64::MAX, u64::MAX)), Decision::Approved);
}

#[test]
fn remove_absent_member_is_a_no_op() {
    let mut dao = dao_with(five_members(), thresholds(1, 3, 5));
    let before = dao.clone();
    let m = Member { dao_id: key(200), member_pubkey: key(77) };
    assert_eq!(remove_member(&mut dao, &key(1), m), Ok(()));
    assert_eq!(dao, before);
}

#[test]
fn remove_member_takes_first_occurrence() {
    let mut dao = dao_with(vec![key(1), key(2), key(1)], thresholds(1, 3, 5));
    let m = Member { dao_id: key(200), member_pubkey: key(1) };
    assert_eq!(remove_member(&mut dao, &key(2), m), Ok(()));
    assert_eq!(dao.members, vec![key(2), key(1)]);
}

#[test]
fn add_member_keeps_duplicates() {
    let mut dao = dao_with(vec![key(1)], thresholds(1, 3, 5));
    let m = Member { dao_id: key(200), member_pubkey: key(1) };
    assert_eq!(add_member(&mut dao, &key(1), m), Ok(()));
    assert_eq!(dao.members, vec![key(1), key(1)]);
    assert!(is_member(&dao, &key(1)));
    assert!(!is_member(&dao, &key(2)));
}

#[test]
fn membership_guards() {
    let mut dao = dao_with(vec![key(1)], thresholds(1, 3, 5));
    let before = dao.clone();
    let m = Member { dao_id: key(200), member_pubkey: key(5) };
    assert_eq!(add_member(&mut dao, &key(9), m), Err(GovError::Unauthorized));
    let elsewhere = Member { dao_id: key(201), member_pubkey: key(5) };
    assert_eq!(add_member(&mut dao, &key(1), elsewhere), Err(GovError::NotFound));
    assert_eq!(remove_member(&mut dao, &key(9), m), Err(GovError::Unauthorized));
    assert_eq!(
        change_voting_thresholds(&mut dao, &key(9), thresholds(0, 0, 0)),
        Err(GovError::Unauthorized)
    );
    assert_eq!(dao, before);
}

#[test]
fn name_only_update_changes_only_name() {
    let mut dao = dao_with(five_members(), thresholds(1, 3, 5));
    let before = dao.clone();
    let patch = DAOUpdate {
        dao_id: key(200),
        new_name: Some("X".to_string()),
        new_description: None,
        new_members: None,
        new_voting_thresholds: None,
    };
    assert_eq!(update_dao(&mut dao, &key(2), patch), Ok(()));
    assert_eq!(dao.name, "X");
    assert_eq!(dao.id, before.id);
    assert_eq!(dao.description, before.description);
    assert_eq!(dao.members, before.members);
    assert_eq!(dao.voting_thresholds, before.voting_thresholds);
}

#[test]
fn update_dao_replaces_whole_fields() {
    let mut dao = dao_with(five_members(), thresholds(1, 3, 5));
    let patch = DAOUpdate {
        dao_id: key(200),
        new_name: None,
        new_description: Some("new".to_string()),
        new_members: Some(vec![key(8)]),
        new_voting_thresholds: Some(thresholds(2, 2, 2)),
    };
    assert_eq!(update_dao(&mut dao, &key(2), patch.clone()), Ok(()));
    assert_eq!(dao.name, "guild");
    assert_eq!(dao.description, "new");
    assert_eq!(dao.members, vec![key(8)]);
    assert_eq!(dao.voting_thresholds, thresholds(2, 2, 2));
    assert_eq!(update_dao(&mut dao, &key(2), patch), Err(GovError::Unauthorized));
}

#[test]
fn change_thresholds_replaces_all() {
    let mut dao = dao_with(five_members(), thresholds(1, 3, 5));
    assert_eq!(change_voting_thresholds(&mut dao, &key(5), thresholds(9, 8, 7)), Ok(()));
    assert_eq!(dao.voting_thresholds, thresholds(9, 8, 7));
}

#[test]
fn double_creation_fails() {
    let dao = dao_with(five_members(), thresholds(1, 3, 5));
    let mut slot = Some(dao.clone());
    assert_eq!(create_dao(&mut slot, dao.clone()), Err(GovError::AlreadyExists));
    let mut pslot = Some(proposal_with(vec![]));
    assert_eq!(
        create_proposal(&mut pslot, &dao, proposal_with(vec![])),
        Err(GovError::AlreadyExists)
    );
    let mut empty: Option<Proposal> = None;
    let mut by_stranger = proposal_with(vec![]);
    by_stranger.proposer = key(99);
    assert_eq!(create_proposal(&mut empty, &dao, by_stranger), Err(GovError::Unauthorized));
    assert!(empty.is_none());
}

#[test]
fn decode_update_payload_fields() {
    let bytes = update_payload(
        key(200),
        Some("héllo"),
        None,
        Some(vec![key(1), key(2)]),
        Some(thresholds(1, 258, 1 << 40)),
    );
    let u = decode_dao_update(&bytes).unwrap();
    assert_eq!(u.dao_id, key(200));
    assert_eq!(u.new_name, Some("héllo".to_string()));
    assert_eq!(u.new_description, None);
    assert_eq!(u.new_members, Some(vec![key(1), key(2)]));
    assert_eq!(u.new_voting_thresholds, Some(thresholds(1, 258, 1 << 40)));
}

#[test]
fn decode_update_rejects_bad_bytes() {
    let good = update_payload(key(200), Some("ab"), None, None, None);
    let mut trailing = good.clone();
    trailing.push(0);
    assert_eq!(decode_dao_update(&trailing), None);
    let mut bad_tag = good.clone();
    bad_tag[32] = 2;
    assert_eq!(decode_dao_update(&bad_tag), None);
    let mut bad_utf8 = good.clone();
    bad_utf8[37] = 0xff;
    assert_eq!(decode_dao_update(&bad_utf8), None);
    assert_eq!(decode_dao_update(&good[..good.len() - 1].to_vec()), None);
    assert_eq!(decode_dao_update(&vec![]), None);
}

#[test]
fn decode_member_payload() {
    let m = decode_member(&member_payload(key(200), key(3))).unwrap();
    assert_eq!(m, Member { dao_id: key(200), member_pubkey: key(3) });
    assert_eq!(decode_member(&vec![0; 63]), None);
    assert_eq!(decode_member(&vec![0; 65]), None);
}

#[test]
fn pubkey_comparison() {
    let mut bytes = [5u8; 32];
    let a = Pubkey::new_from_array(bytes);
    bytes[31] = 6;
    let b = Pubkey::new_from_array(bytes);
    assert!(a.same_key(&a));
    assert!(!a.same_key(&b));
    assert_eq!(b.to_bytes(), bytes);
}
