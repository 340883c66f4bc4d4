//! Snapshot retention: which snapshot directories a pass deletes.
//!
//! Snapshot directories are named by fixed-format timestamps, so the order
//! of their names is the order in which they were made. A pass deletes the
//! smallest name, then the smallest of the rest, until no more than the
//! keep count remain.

use crate::paths::{copy_strings, texts};
use vstd::multiset::*;
use vstd::prelude::*;
use vstd::seq_lib::*;
use vstd::string::*;

verus! {

/// Lexicographic order on names, a proper prefix first.
pub open spec fn name_lt(a: Seq<char>, b: Seq<char>) -> bool
    decreases a.len(),
{
    if a.len() == 0 {
        b.len() > 0
    } else if b.len() == 0 {
        false
    } else if a[0] != b[0] {
        a[0] < b[0]
    } else {
        name_lt(a.drop_first(), b.drop_first())
    }
}

/// The position of the first smallest name of a non-empty list.
pub open spec fn first_min_index(s: Seq<Seq<char>>) -> int
    decreases s.len(),
{
    if s.len() <= 1 {
        0
    } else {
        let m = first_min_index(s.drop_last());
        if name_lt(s.last(), s[m]) {
            s.len() - 1
        } else {
            m
        }
    }
}

/// No pass is made over fewer than two names, nor over no more than `keep`.
pub open spec fn within_bound(names: Seq<Seq<char>>, keep: nat) -> bool {
    names.len() < 2 || names.len() <= keep
}

/// The names that a pass leaves, in the order given.
pub open spec fn retained(names: Seq<Seq<char>>, keep: nat) -> Seq<Seq<char>>
    decreases names.len(),
{
    let m = first_min_index(names);
    if within_bound(names, keep) || !(0 <= m < names.len()) {
        names
    } else {
        retained(names.remove(m), keep)
    }
}

/// The names that a pass deletes, in the order of deletion.
pub open spec fn evicted(names: Seq<Seq<char>>, keep: nat) -> Seq<Seq<char>>
    decreases names.len(),
{
    let m = first_min_index(names);
    if within_bound(names, keep) || !(0 <= m < names.len()) {
        Seq::empty()
    } else {
        seq![names[m]] + evicted(names.remove(m), keep)
    }
}

/// The first smallest name lies inside the list.
pub proof fn lemma_first_min_index_bounds(s: Seq<Seq<char>>)
    requires
        s.len() > 0,
    ensures
        0 <= first_min_index(s) < s.len(),
    decreases s.len(),
{
    if s.len() > 1 {
        lemma_first_min_index_bounds(s.drop_last());
    }
}

/// Compares two names in the order of `name_lt`.
pub fn name_less(a: &str, b: &str) -> (r: bool)
    ensures
        r == name_lt(a@, b@),
{
    let la = a.unicode_len();
    let lb = b.unicode_len();
    let mut i: usize = 0;
    assert(a@.skip(0) =~= a@);
    assert(b@.skip(0) =~= b@);
    while i < la && i < lb
        invariant
            i <= la,
            i <= lb,
            la == a@.len(),
            lb == b@.len(),
            name_lt(a@, b@) == name_lt(a@.skip(i as int), b@.skip(i as int)),
        decreases la - i,
    {
        let ca = a.get_char(i);
        let cb = b.get_char(i);
        if ca != cb {
            return ca < cb;
        }
        assert(a@.skip(i as int).drop_first() =~= a@.skip(i + 1));
        assert(b@.skip(i as int).drop_first() =~= b@.skip(i + 1));
        i = i + 1;
    }
    la < lb
}

/// The position of the first smallest name.
fn min_position(v: &Vec<String>) -> (m: usize)
    requires
        v@.len() > 0,
    ensures
        m == first_min_index(texts(v@)),
{
    let mut m: usize = 0;
    let mut i: usize = 1;
    assert(texts(v@).subrange(0, 1).len() == 1);
    while i < v.len()
        invariant
            1 <= i <= v@.len(),
            m == first_min_index(texts(v@).subrange(0, i as int)),
        decreases v@.len() - i,
    {
        let ghost s = texts(v@).subrange(0, i + 1);
        proof {
            lemma_first_min_index_bounds(texts(v@).subrange(0, i as int));
            assert(s.drop_last() =~= texts(v@).subrange(0, i as int));
        }
        if name_less(v[i].as_str(), v[m].as_str()) {
            m = i;
        }
        i = i + 1;
    }
    assert(texts(v@).subrange(0, v@.len() as int) =~= texts(v@));
    m
}

/// The snapshot names that one retention pass deletes, oldest first: none
/// when fewer than two names are given; otherwise the smallest name is taken
/// out repeatedly while more than `keep_count` remain.
pub fn prune_plan(names: &Vec<String>, keep_count: usize) -> (doomed: Vec<String>)
    ensures
        texts(doomed@) == evicted(texts(names@), keep_count as nat),
{
    let mut remaining = copy_strings(names);
    let mut doomed: Vec<String> = Vec::new();
    assert(texts(doomed@) =~= Seq::<Seq<char>>::empty());
    while remaining.len() >= 2 && remaining.len() > keep_count
        invariant
            texts(doomed@) + evicted(texts(remaining@), keep_count as nat) == evicted(
                texts(names@),
                keep_count as nat,
            ),
        decreases remaining@.len(),
    {
        let ghost before = texts(remaining@);
        let m = min_position(&remaining);
        proof {
            lemma_first_min_index_bounds(before);
        }
        let gone = remaining.remove(m);
        proof {
            assert(texts(remaining@) =~= before.remove(m as int));
            assert(texts(doomed@.push(gone)) =~= texts(doomed@) + seq![before[m as int]]);
        }
        doomed.push(gone);
    }
    assert(evicted(texts(remaining@), keep_count as nat) =~= Seq::<Seq<char>>::empty());
    doomed
}

/// Every name of the list comes strictly after the names before it.
pub open spec fn strictly_increasing(s: Seq<Seq<char>>) -> bool {
    forall|i: int, j: int| 0 <= i < j < s.len() ==> name_lt(#[trigger] s[i], #[trigger] s[j])
}

/// The snapshot names present after a series of runs that started from an
/// empty root: each run adds its own snapshot after those already there and
/// then makes a retention pass.
pub open spec fn after_runs(stamps: Seq<Seq<char>>, keep: nat) -> Seq<Seq<char>>
    decreases stamps.len(),
{
    if stamps.len() == 0 {
        Seq::empty()
    } else {
        retained(after_runs(stamps.drop_last(), keep).push(stamps.last()), keep)
    }
}

/// Of two names, at most one comes before the other.
pub proof fn lemma_name_lt_asymmetric(a: Seq<char>, b: Seq<char>)
    ensures
        name_lt(a, b) ==> !name_lt(b, a),
    decreases a.len(),
{
    if a.len() > 0 && b.len() > 0 && a[0] == b[0] {
        lemma_name_lt_asymmetric(a.drop_first(), b.drop_first());
    }
}

/// The order of names is transitive.
pub proof fn lemma_name_lt_transitive(a: Seq<char>, b: Seq<char>, c: Seq<char>)
    requires
        name_lt(a, b),
        name_lt(b, c),
    ensures
        name_lt(a, c),
    decreases a.len(),
{
    if a.len() > 0 && b.len() > 0 && c.len() > 0 && a[0] == b[0] && b[0] == c[0] {
        lemma_name_lt_transitive(a.drop_first(), b.drop_first(), c.drop_first());
    }
}

/// No name of the list is smaller than the one at `first_min_index`.
pub proof fn lemma_first_min_is_least(s: Seq<Seq<char>>)
    requires
        s.len() > 0,
    ensures
        forall|i: int| 0 <= i < s.len() ==> !name_lt(#[trigger] s[i], s[first_min_index(s)]),
    decreases s.len(),
{
    if s.len() > 1 {
        let t = s.drop_last();
        lemma_first_min_is_least(t);
        lemma_first_min_index_bounds(t);
        let m = first_min_index(t);
        assert forall|i: int| 0 <= i < s.len() implies !name_lt(#[trigger] s[i], s[first_min_index(s)]) by {
            if name_lt(s.last(), s[m]) {
                if i < s.len() - 1 {
                    assert(!name_lt(t[i], t[m]));
                    if name_lt(s[i], s.last()) {
                        lemma_name_lt_transitive(s[i], s.last(), s[m]);
                    }
                } else {
                    lemma_name_lt_asymmetric(s.last(), s.last());
                }
            } else {
                if i < s.len() - 1 {
                    assert(!name_lt(t[i], t[m]));
                }
            }
        }
    } else {
        lemma_name_lt_asymmetric(s[0], s[0]);
    }
}

/// One retention pass keeps `keep` names (all of them where there are no
/// more), deletes the others, and keeps no name older than one it deletes:
/// the snapshots that stay are the newest.
pub proof fn lemma_pass_keeps_newest(names: Seq<Seq<char>>, keep: nat)
    requires
        keep >= 1,
    ensures
        retained(names, keep).len() == if names.len() <= keep { names.len() } else { keep },
        (retained(names, keep) + evicted(names, keep)).to_multiset() =~= names.to_multiset(),
        forall|a: int, b: int|
            0 <= a < retained(names, keep).len() && 0 <= b < evicted(names, keep).len()
                ==> !name_lt(#[trigger] retained(names, keep)[a], #[trigger] evicted(names, keep)[b]),
    decreases names.len(),
{
    broadcast use group_to_multiset_ensures, lemma_multiset_commutative, group_multiset_axioms;

    if !within_bound(names, keep) {
        lemma_first_min_index_bounds(names);
        let m = first_min_index(names);
        let rest = names.remove(m);
        lemma_pass_keeps_newest(rest, keep);
        lemma_first_min_is_least(names);
        let r = retained(rest, keep);
        let e = evicted(rest, keep);
        assert(retained(names, keep) == r);
        assert(evicted(names, keep) == seq![names[m]] + e);
        assert((r + (seq![names[m]] + e)).to_multiset() =~= r.to_multiset().add(
            seq![names[m]].to_multiset(),
        ).add(e.to_multiset()));
        assert(seq![names[m]].to_multiset() =~= Multiset::singleton(names[m])) by {
            assert(seq![names[m]] =~= Seq::<Seq<char>>::empty().push(names[m]));
        }
        assert(names.to_multiset() =~= rest.to_multiset().insert(names[m]));
        assert forall|a: int, b: int|
            0 <= a < r.len() && 0 <= b < (seq![names[m]] + e).len() implies !name_lt(
            #[trigger] r[a],
            #[trigger] (seq![names[m]] + e)[b],
        ) by {
            if b > 0 {
                assert((seq![names[m]] + e)[b] == e[b - 1]);
            } else {
                assert((r + e).to_multiset().count(r[a]) > 0);
                assert(rest.contains(r[a]));
                let k = choose|k: int| 0 <= k < rest.len() && rest[k] == r[a];
                if k < m {
                    assert(rest[k] == names[k]);
                } else {
                    assert(rest[k] == names[k + 1]);
                }
            }
        }
    }
}

/// A name smaller than every other starts an increasing list.
pub proof fn lemma_increasing_min_first(s: Seq<Seq<char>>)
    requires
        s.len() > 0,
        strictly_increasing(s),
    ensures
        first_min_index(s) == 0,
    decreases s.len(),
{
    if s.len() > 1 {
        let t = s.drop_last();
        assert(strictly_increasing(t));
        lemma_increasing_min_first(t);
        assert(name_lt(s[0], s[s.len() - 1]));
        lemma_name_lt_asymmetric(s[0], s.last());
    }
}

/// With a keep count above one, the runs of one target, each naming its
/// snapshot after the last, leave exactly the `keep` newest snapshots once
/// there have been more runs than that.
pub proof fn lemma_successive_runs_keep_newest(stamps: Seq<Seq<char>>, keep: nat)
    requires
        keep > 1,
        strictly_increasing(stamps),
    ensures
        after_runs(stamps, keep) == stamps.subrange(
            if stamps.len() > keep { stamps.len() - keep } else { 0 },
            stamps.len() as int,
        ),
    decreases stamps.len(),
{
    if stamps.len() > 0 {
        let t = stamps.drop_last();
        assert(strictly_increasing(t));
        lemma_successive_runs_keep_newest(t, keep);
        let lo: int = if t.len() > keep { t.len() - keep } else { 0 };
        let before = stamps.subrange(lo, t.len() as int);
        assert(after_runs(t, keep) == before) by {
            assert(t.subrange(lo, t.len() as int) =~= before);
        }
        let listing = before.push(stamps.last());
        assert(listing =~= stamps.subrange(lo, stamps.len() as int));
        if listing.len() <= keep {
            assert(within_bound(listing, keep));
        } else {
            assert(strictly_increasing(listing));
            lemma_increasing_min_first(listing);
            let rest = listing.remove(0);
            assert(rest =~= stamps.subrange(lo + 1, stamps.len() as int));
            assert(within_bound(rest, keep));
            assert(retained(listing, keep) == retained(rest, keep));
        }
    }
}

} // verus!
