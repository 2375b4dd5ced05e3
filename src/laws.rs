use vstd::prelude::*;

use crate::execution::{apply_change, apply_changes};
use crate::membership::{patched, update_outcome};
use crate::types::{ChangeView, DaoUpdateView, DaoView, GovError, Tally, VoteType};
use crate::voting::{add_vote, cast_votes, counter};

verus! {

/// `n` votes of type `v`.
pub open spec fn repeated(v: VoteType, n: nat) -> Seq<VoteType> {
    Seq::new(n, |i: int| v)
}

/// Votes are never deduplicated: `n` votes of one type raise that type's
/// counter by exactly `n` and leave the other two counters as they were.
pub proof fn lemma_repeated_votes(t: Tally, v: VoteType, n: nat)
    ensures
        counter(cast_votes(t, repeated(v, n)), v) == counter(t, v) + n,
        forall|w: VoteType|
            w != v ==> #[trigger] counter(cast_votes(t, repeated(v, n)), w) == counter(t, w),
    decreases n,
{
    let vs = repeated(v, n);
    if n > 0 {
        let prev = repeated(v, (n - 1) as nat);
        assert(vs.drop_last() =~= prev);
        assert(vs.last() == v);
        lemma_repeated_votes(t, v, (n - 1) as nat);
        assert(cast_votes(t, vs) == add_vote(cast_votes(t, prev), v));
        assert forall|w: VoteType| w != v implies #[trigger] counter(cast_votes(t, vs), w) == counter(
            t,
            w,
        ) by {
            assert(counter(cast_votes(t, prev), w) == counter(t, w));
        }
    } else {
        assert(vs.len() == 0);
    }
}

/// Changes apply in list order: a list split in two applies as its first
/// part followed by its second, and the first failure stops the rest.
pub proof fn lemma_changes_in_order(d: DaoView, first: Seq<ChangeView>, second: Seq<ChangeView>)
    ensures
        apply_changes(d, first + second) == match apply_changes(d, first) {
            Ok(d1) => apply_changes(d1, second),
            Err(e) => Err(e),
        },
    decreases first.len(),
{
    if first.len() > 0 {
        assert((first + second).drop_first() =~= first.drop_first() + second);
        assert((first + second)[0] == first[0]);
        match apply_change(d, first[0]) {
            Ok(d2) => lemma_changes_in_order(d2, first.drop_first(), second),
            Err(e) => {},
        }
    } else {
        assert(first + second =~= second);
    }
}

/// A change whose payload cannot be decoded, after changes that all applied,
/// makes the whole list fail with `MalformedChangePayload`.
pub proof fn lemma_malformed_change_aborts(d: DaoView, cs: Seq<ChangeView>, k: int)
    requires
        0 <= k < cs.len(),
        apply_changes(d, cs.take(k)) is Ok,
        apply_change(apply_changes(d, cs.take(k))->Ok_0, cs[k]) == Err::<DaoView, GovError>(
            GovError::MalformedChangePayload,
        ),
    ensures
        apply_changes(d, cs) == Err::<DaoView, GovError>(GovError::MalformedChangePayload),
{
    let rest = cs.skip(k);
    assert(cs.take(k) + rest =~= cs);
    lemma_changes_in_order(d, cs.take(k), rest);
    assert(rest[0] == cs[k]);
}

/// A patch that holds only a new name changes the name and nothing else.
pub proof fn lemma_name_only_patch(d: DaoView, u: DaoUpdateView, name: Seq<char>)
    requires
        u.dao_id == d.id,
        u.new_name == Some(name),
        u.new_description is None,
        u.new_members is None,
        u.new_thresholds is None,
    ensures
        update_outcome(d, u) == Ok::<DaoView, GovError>(patched(d, u)),
        patched(d, u).name == name,
        patched(d, u).id == d.id,
        patched(d, u).description == d.description,
        patched(d, u).members == d.members,
        patched(d, u).thresholds == d.thresholds,
{
}

} // verus!
