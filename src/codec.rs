//! The byte layout of change payloads. Integers are little-endian; an
//! optional field is a tag byte (0 absent, 1 present) followed, when
//! present, by its value; a string is a 4-byte length and that many bytes of
//! UTF-8; a list of identities is a 4-byte count and 32 bytes per identity.
use vstd::prelude::*;
use vstd::utf8::{decode_utf8, valid_utf8};

use crate::types::{keys_view, DaoUpdateView, DAOUpdate, Member, Pubkey, VotingThresholds};

verus! {

pub open spec fn le_u32(b: Seq<u8>, p: int) -> int {
    b[p] as int + b[p + 1] as int * 0x100 + b[p + 2] as int * 0x10000 + b[p + 3] as int
        * 0x1000000
}

pub open spec fn le_u64(b: Seq<u8>, p: int) -> int {
    le_u32(b, p) + le_u32(b, p + 4) * 0x1_0000_0000
}

/// An identity at `p`, and the position after it.
pub open spec fn key_at(b: Seq<u8>, p: int) -> Option<(Seq<u8>, int)> {
    if 0 <= p && p + 32 <= b.len() {
        Some((b.subrange(p, p + 32), p + 32))
    } else {
        None
    }
}

/// An optional string at `p`, and the position after it.
pub open spec fn opt_string_at(b: Seq<u8>, p: int) -> Option<(Option<Seq<char>>, int)> {
    if p < 0 || p >= b.len() {
        None
    } else if b[p] == 0 {
        Some((None, p + 1))
    } else if b[p] == 1 && p + 5 <= b.len() {
        let n = le_u32(b, p + 1);
        let s = b.subrange(p + 5, p + 5 + n);
        if p + 5 + n <= b.len() && valid_utf8(s) {
            Some((Some(decode_utf8(s)), p + 5 + n))
        } else {
            None
        }
    } else {
        None
    }
}

/// `n` identities laid out from `p` on.
pub open spec fn keys_from(b: Seq<u8>, p: int, n: int) -> Seq<Seq<u8>> {
    Seq::new(n as nat, |i: int| b.subrange(p + 32 * i, p + 32 * i + 32))
}

/// An optional list of identities at `p`, and the position after it.
pub open spec fn opt_keys_at(b: Seq<u8>, p: int) -> Option<(Option<Seq<Seq<u8>>>, int)> {
    if p < 0 || p >= b.len() {
        None
    } else if b[p] == 0 {
        Some((None, p + 1))
    } else if b[p] == 1 && p + 5 <= b.len() {
        let n = le_u32(b, p + 1);
        if p + 5 + 32 * n <= b.len() {
            Some((Some(keys_from(b, p + 5, n)), p + 5 + 32 * n))
        } else {
            None
        }
    } else {
        None
    }
}

/// Optional thresholds at `p`, and the position after them.
pub open spec fn opt_thresholds_at(b: Seq<u8>, p: int) -> Option<(Option<VotingThresholds>, int)> {
    if p < 0 || p >= b.len() {
        None
    } else if b[p] == 0 {
        Some((None, p + 1))
    } else if b[p] == 1 && p + 25 <= b.len() {
        Some(
            (
                Some(
                    VotingThresholds {
                        proposal_creation_threshold: le_u64(b, p + 1) as u64,
                        vote_approval_threshold: le_u64(b, p + 9) as u64,
                        vote_participation_threshold: le_u64(b, p + 17) as u64,
                    },
                ),
                p + 25,
            ),
        )
    } else {
        None
    }
}

/// The organization patch that a payload holds: the organization's identity,
/// then name, description, members and thresholds, each optional, and nothing
/// after them.
pub open spec fn dao_update_of(b: Seq<u8>) -> Option<DaoUpdateView> {
    match key_at(b, 0) {
        None => None,
        Some((id, p1)) => match opt_string_at(b, p1) {
            None => None,
            Some((name, p2)) => match opt_string_at(b, p2) {
                None => None,
                Some((description, p3)) => match opt_keys_at(b, p3) {
                    None => None,
                    Some((members, p4)) => match opt_thresholds_at(b, p4) {
                        None => None,
                        Some((thresholds, p5)) => if p5 == b.len() {
                            Some(
                                DaoUpdateView {
                                    dao_id: id,
                                    new_name: name,
                                    new_description: description,
                                    new_members: members,
                                    new_thresholds: thresholds,
                                },
                            )
                        } else {
                            None
                        },
                    },
                },
            },
        },
    }
}

/// The member record that a payload holds: the organization's identity and
/// the member's, and nothing after them.
pub open spec fn member_of(b: Seq<u8>) -> Option<(Seq<u8>, Seq<u8>)> {
    if b.len() == 64 {
        Some((b.subrange(0, 32), b.subrange(32, 64)))
    } else {
        None
    }
}

pub open spec fn opt_chars(o: Option<String>) -> Option<Seq<char>> {
    match o {
        Some(s) => Some(s@),
        None => None,
    }
}

/// Relies on String::from_utf8: it succeeds exactly on valid UTF-8, and the
/// string then holds the characters that the bytes encode.
#[verifier::external_body]
fn string_from_utf8(b: Vec<u8>) -> (r: Option<String>)
    ensures
        r is Some <==> valid_utf8(b@),
        r matches Some(s) ==> s@ == decode_utf8(b@),
{
    String::from_utf8(b).ok()
}

fn read_u32(b: &Vec<u8>, p: usize) -> (r: u32)
    requires
        p + 4 <= b@.len(),
    ensures
        r as int == le_u32(b@, p as int),
{
    let len = b.len();
    assert(p + 4 <= len);
    b[p] as u32 + b[p + 1] as u32 * 0x100 + b[p + 2] as u32 * 0x10000 + b[p + 3] as u32
        * 0x1000000
}

fn read_u64(b: &Vec<u8>, p: usize) -> (r: u64)
    requires
        p + 8 <= b@.len(),
    ensures
        r as int == le_u64(b@, p as int),
{
    let len = b.len();
    assert(p + 8 <= len);
    let lo = read_u32(b, p);
    let hi = read_u32(b, p + 4);
    lo as u64 + hi as u64 * 0x1_0000_0000
}

fn read_key(b: &Vec<u8>, p: usize) -> (r: Option<(Pubkey, usize)>)
    ensures
        r is Some <==> key_at(b@, p as int) is Some,
        r matches Some((k, q)) ==> key_at(b@, p as int) == Some((k@, q as int)),
{
    if p > b.len() || b.len() - p < 32 {
        return None;
    }
    let mut a: [u8; 32] = [0u8; 32];
    let mut i: usize = 0;
    while i < 32
        invariant
            0 <= i <= 32,
            p + 32 <= b@.len(),
            b@.len() <= usize::MAX,
            a@.len() == 32,
            forall|j: int| 0 <= j < i ==> a@[j] == b@[p + j],
        decreases 32 - i,
    {
        a[i] = b[p + i];
        i = i + 1;
    }
    assert(a@ =~= b@.subrange(p as int, p + 32));
    Some((Pubkey { bytes: a }, p + 32))
}

fn read_opt_string(b: &Vec<u8>, p: usize) -> (r: Option<(Option<String>, usize)>)
    ensures
        r is Some <==> opt_string_at(b@, p as int) is Some,
        r matches Some((s, q)) ==> opt_string_at(b@, p as int) == Some((opt_chars(s), q as int)),
{
    if p >= b.len() {
        return None;
    }
    if b[p] == 0 {
        return Some((None, p + 1));
    }
    if b[p] != 1 || b.len() - p < 5 {
        return None;
    }
    let n = read_u32(b, p + 1) as usize;
    let start = p + 5;
    if b.len() - start < n {
        return None;
    }
    let mut v: Vec<u8> = Vec::new();
    let mut j: usize = 0;
    while j < n
        invariant
            0 <= j <= n,
            start + n <= b@.len(),
            b@.len() <= usize::MAX,
            v@ == b@.subrange(start as int, start + j),
        decreases n - j,
    {
        v.push(b[start + j]);
        j = j + 1;
        assert(v@ =~= b@.subrange(start as int, start + j));
    }
    match string_from_utf8(v) {
        None => None,
        Some(s) => Some((Some(s), start + n)),
    }
}

fn read_opt_keys(b: &Vec<u8>, p: usize) -> (r: Option<(Option<Vec<Pubkey>>, usize)>)
    ensures
        r is Some <==> opt_keys_at(b@, p as int) is Some,
        r matches Some((ks, q)) ==> opt_keys_at(b@, p as int) == Some(
            (
                match ks {
                    Some(v) => Some(keys_view(v@)),
                    None => None,
                },
                q as int,
            ),
        ),
{
    if p >= b.len() {
        return None;
    }
    if b[p] == 0 {
        return Some((None, p + 1));
    }
    if b[p] != 1 || b.len() - p < 5 {
        return None;
    }
    let n32 = read_u32(b, p + 1);
    let n = n32 as usize;
    assert(n == n32);
    let ghost start = p + 5;
    let mut q: usize = p + 5;
    let mut ks: Vec<Pubkey> = Vec::new();
    let mut i: usize = 0;
    while i < n
        invariant
            0 <= i <= n,
            n == le_u32(b@, p + 1),
            start == p + 5,
            p < b@.len(),
            b@[p as int] == 1,
            q == start + 32 * i,
            q <= b@.len(),
            keys_view(ks@) == keys_from(b@, start, i as int),
        decreases n - i,
    {
        match read_key(b, q) {
            None => {
                assert(start + 32 * n >= q + 32);
                return None;
            },
            Some((k, next)) => {
                let ghost old_ks = ks@;
                assert(k@ == b@.subrange(q as int, q + 32));
                ks.push(k);
                assert(keys_view(ks@) =~= keys_view(old_ks).push(k@));
                q = next;
                i = i + 1;
                assert(keys_view(ks@) =~= keys_from(b@, start, i as int)) by {
                    assert forall|j: int| 0 <= j < i implies keys_view(ks@)[j] == keys_from(
                        b@,
                        start,
                        i as int,
                    )[j] by {
                        if j < i - 1 {
                            assert(keys_view(ks@)[j] == keys_view(old_ks)[j]);
                            assert(keys_view(old_ks)[j] == keys_from(b@, start, i - 1)[j]);
                        }
                    }
                }
            },
        }
    }
    Some((Some(ks), q))
}

fn read_opt_thresholds(b: &Vec<u8>, p: usize) -> (r: Option<(Option<VotingThresholds>, usize)>)
    ensures
        r is Some <==> opt_thresholds_at(b@, p as int) is Some,
        r matches Some((t, q)) ==> opt_thresholds_at(b@, p as int) == Some((t, q as int)),
{
    if p >= b.len() {
        return None;
    }
    if b[p] == 0 {
        return Some((None, p + 1));
    }
    if b[p] != 1 || b.len() - p < 25 {
        return None;
    }
    let t = VotingThresholds {
        proposal_creation_threshold: read_u64(b, p + 1),
        vote_approval_threshold: read_u64(b, p + 9),
        vote_participation_threshold: read_u64(b, p + 17),
    };
    Some((Some(t), p + 25))
}

/// Reads an organization patch out of a change payload; `None` where the
/// bytes do not hold one.
pub fn decode_dao_update(b: &Vec<u8>) -> (r: Option<DAOUpdate>)
    ensures
        r is Some <==> dao_update_of(b@) is Some,
        r matches Some(u) ==> dao_update_of(b@) == Some(u@),
{
    let (dao_id, p1) = match read_key(b, 0) {
        None => {
            return None;
        },
        Some(x) => x,
    };
    let (new_name, p2) = match read_opt_string(b, p1) {
        None => {
            return None;
        },
        Some(x) => x,
    };
    let (new_description, p3) = match read_opt_string(b, p2) {
        None => {
            return None;
        },
        Some(x) => x,
    };
    let (new_members, p4) = match read_opt_keys(b, p3) {
        None => {
            return None;
        },
        Some(x) => x,
    };
    let (new_voting_thresholds, p5) = match read_opt_thresholds(b, p4) {
        None => {
            return None;
        },
        Some(x) => x,
    };
    if p5 != b.len() {
        return None;
    }
    Some(DAOUpdate { dao_id, new_name, new_description, new_members, new_voting_thresholds })
}

/// Reads a member record out of a change payload; `None` where the bytes do
/// not hold one.
pub fn decode_member(b: &Vec<u8>) -> (r: Option<Member>)
    ensures
        r is Some <==> member_of(b@) is Some,
        r matches Some(m) ==> member_of(b@) == Some((m.dao_id@, m.member_pubkey@)),
{
    if b.len() != 64 {
        return None;
    }
    match (read_key(b, 0), read_key(b, 32)) {
        (Some((dao_id, _)), Some((member_pubkey, _))) => Some(Member { dao_id, member_pubkey }),
        _ => None,
    }
}

} // verus!
