//! Roster diffing: which players joined, which disconnected, which remain.

use vstd::prelude::*;
use vstd::seq_lib::group_seq_properties;

verus! {

/// Players present before but absent after: they disconnected.
pub open spec fn diff_disconnected(before: Seq<Seq<char>>, after: Seq<Seq<char>>) -> Seq<
    Seq<char>,
> {
    before.filter(|p: Seq<char>| !after.contains(p))
}

/// Players present after but absent before: they joined.
pub open spec fn diff_joined(before: Seq<Seq<char>>, after: Seq<Seq<char>>) -> Seq<Seq<char>> {
    after.filter(|p: Seq<char>| !before.contains(p))
}

/// Players present in both rosters, in the order the new roster lists them.
pub open spec fn diff_remaining(before: Seq<Seq<char>>, after: Seq<Seq<char>>) -> Seq<Seq<char>> {
    after.filter(|p: Seq<char>| before.contains(p))
}

fn roster_contains(roster: &Vec<String>, name: &String) -> (present: bool)
    ensures
        present == roster.deep_view().contains(name@),
{
    broadcast use group_seq_properties;

    let mut i: usize = 0;
    while i < roster.len()
        invariant
            i <= roster.len(),
            forall|k: int| 0 <= k < i ==> roster.deep_view()[k] != name@,
        decreases roster.len() - i,
    {
        proof {
            assert(roster.deep_view()[i as int] == roster@[i as int]@);
        }
        if roster[i].eq(name) {
            return true;
        }
        i += 1;
    }
    false
}

/// Take two rosters of player names and return the difference between them:
/// the players who disconnected, the players who joined, and the players who
/// remain online.
pub fn get_player_diff(before: &Vec<String>, after: &Vec<String>) -> (diff: (
    Vec<String>,
    Vec<String>,
    Vec<String>,
))
    ensures
        diff.0.deep_view() == diff_disconnected(before.deep_view(), after.deep_view()),
        diff.1.deep_view() == diff_joined(before.deep_view(), after.deep_view()),
        diff.2.deep_view() == diff_remaining(before.deep_view(), after.deep_view()),
{
    broadcast use group_seq_properties;

    let ghost bv = before.deep_view();
    let ghost av = after.deep_view();
    let ghost gone = |p: Seq<char>| !av.contains(p);
    let ghost came = |p: Seq<char>| !bv.contains(p);
    let ghost stay = |p: Seq<char>| bv.contains(p);

    let mut disconnected: Vec<String> = Vec::new();
    let mut i: usize = 0;
    while i < before.len()
        invariant
            i <= before.len(),
            bv == before.deep_view(),
            av == after.deep_view(),
            disconnected.deep_view() == bv.take(i as int).filter(gone),
            forall|p: Seq<char>| #[trigger] gone(p) == !av.contains(p),
        decreases before.len() - i,
    {
        proof {
            assert(bv.take(i + 1) =~= bv.take(i as int).push(bv[i as int]));
            bv.take(i as int).lemma_filter_push(bv[i as int], gone);
        }
        let ghost pre = disconnected.deep_view();
        if !roster_contains(after, &before[i]) {
            disconnected.push(before[i].clone());
            proof {
                assert(disconnected.deep_view() =~= pre.push(bv[i as int]));
            }
        }
        i += 1;
    }
    proof {
        assert(bv.take(before.len() as int) =~= bv);
    }

    let mut joined: Vec<String> = Vec::new();
    let mut remaining: Vec<String> = Vec::new();
    let mut j: usize = 0;
    while j < after.len()
        invariant
            j <= after.len(),
            bv == before.deep_view(),
            av == after.deep_view(),
            joined.deep_view() == av.take(j as int).filter(came),
            remaining.deep_view() == av.take(j as int).filter(stay),
            forall|p: Seq<char>| #[trigger] came(p) == !bv.contains(p),
            forall|p: Seq<char>| #[trigger] stay(p) == bv.contains(p),
        decreases after.len() - j,
    {
        proof {
            assert(av.take(j + 1) =~= av.take(j as int).push(av[j as int]));
            av.take(j as int).lemma_filter_push(av[j as int], came);
            av.take(j as int).lemma_filter_push(av[j as int], stay);
        }
        let ghost pre_j = joined.deep_view();
        let ghost pre_r = remaining.deep_view();
        if !roster_contains(before, &after[j]) {
            joined.push(after[j].clone());
            proof {
                assert(joined.deep_view() =~= pre_j.push(av[j as int]));
            }
        } else {
            remaining.push(after[j].clone());
            proof {
                assert(remaining.deep_view() =~= pre_r.push(av[j as int]));
            }
        }
        j += 1;
    }
    proof {
        assert(av.take(after.len() as int) =~= av);
    }

    (disconnected, joined, remaining)
}

/// Set form of the roster diff: the three parts are the set difference
/// `before \ after`, the set difference `after \ before`, and the
/// intersection `before /\ after`.
pub proof fn lemma_diff_sets(before: Seq<Seq<char>>, after: Seq<Seq<char>>)
    ensures
        diff_disconnected(before, after).to_set() == before.to_set().difference(after.to_set()),
        diff_joined(before, after).to_set() == after.to_set().difference(before.to_set()),
        diff_remaining(before, after).to_set() == after.to_set().intersect(before.to_set()),
{
    broadcast use group_seq_properties;
    broadcast use Seq::<_>::lemma_filter_pred;
    broadcast use Seq::<_>::lemma_filter_contains;
    broadcast use Seq::<_>::lemma_filter_contains_rev;

    assert(diff_disconnected(before, after).to_set() =~= before.to_set().difference(
        after.to_set(),
    ));
    assert(diff_joined(before, after).to_set() =~= after.to_set().difference(before.to_set()));
    assert(diff_remaining(before, after).to_set() =~= after.to_set().intersect(before.to_set()));
}

/// Diffing a roster against itself reports no change: nobody disconnected,
/// nobody joined, and everyone remains, in order.
pub proof fn lemma_diff_self(roster: Seq<Seq<char>>)
    ensures
        diff_disconnected(roster, roster).len() == 0,
        diff_joined(roster, roster).len() == 0,
        diff_remaining(roster, roster) == roster,
{
    broadcast use group_seq_properties;

    lemma_filter_all_false(roster, |p: Seq<char>| !roster.contains(p));
    lemma_filter_all_true(roster, |p: Seq<char>| roster.contains(p));
}

proof fn lemma_filter_all_true<A>(s: Seq<A>, pred: spec_fn(A) -> bool)
    requires
        forall|i: int| 0 <= i < s.len() ==> pred(#[trigger] s[i]),
    ensures
        s.filter(pred) == s,
    decreases s.len(),
{
    reveal(Seq::filter);
    if s.len() > 0 {
        lemma_filter_all_true(s.drop_last(), pred);
        assert(pred(s.last()));
        assert(s.filter(pred) =~= s);
    } else {
        assert(s.filter(pred) =~= s);
    }
}

proof fn lemma_filter_all_false<A>(s: Seq<A>, pred: spec_fn(A) -> bool)
    requires
        forall|i: int| 0 <= i < s.len() ==> !pred(#[trigger] s[i]),
    ensures
        s.filter(pred).len() == 0,
    decreases s.len(),
{
    reveal(Seq::filter);
    if s.len() > 0 {
        lemma_filter_all_false(s.drop_last(), pred);
        assert(!pred(s.last()));
    }
}

} // verus!
