//! Sorting a listing into the order the dialog shows: an insertion sort
//! whose result is pinned exactly by a specification function, together
//! with proofs that the result is sorted and a permutation of the input.

use vstd::prelude::*;
use vstd::seq_lib::lemma_multiset_commutative;
use crate::entry::DirEntry;
use crate::entry::entry_le;
use crate::entry::entry_le_exec;
use crate::entry::lex_le;
use crate::entry::lemma_entry_le_total;
use crate::entry::lemma_entry_le_trans;

verus! {

/// A listing is sorted when every earlier entry is `entry_le` every later
/// one.
pub open spec fn entries_sorted(s: Seq<DirEntry>) -> bool {
    forall|i: int, j: int| 0 <= i < j < s.len() ==> #[trigger] entry_le(s[i], s[j])
}

/// Inserts an entry in front of the first element it is `entry_le` to.
pub open spec fn insert_le(e: DirEntry, s: Seq<DirEntry>) -> Seq<DirEntry>
    decreases s.len(),
{
    if s.len() == 0 {
        seq![e]
    } else if entry_le(e, s[0]) {
        seq![e] + s
    } else {
        seq![s[0]] + insert_le(e, s.drop_first())
    }
}

/// Sorts a listing by inserting its entries one after the other.
pub open spec fn sort_entries_spec(s: Seq<DirEntry>) -> Seq<DirEntry>
    decreases s.len(),
{
    if s.len() == 0 {
        s
    } else {
        insert_le(s.last(), sort_entries_spec(s.drop_last()))
    }
}

/// `insert_le` adds exactly one entry.
pub proof fn lemma_insert_le_len(e: DirEntry, s: Seq<DirEntry>)
    ensures
        insert_le(e, s).len() == s.len() + 1,
    decreases s.len(),
{
    if s.len() > 0 && !entry_le(e, s[0]) {
        lemma_insert_le_len(e, s.drop_first());
    }
}

/// Every entry of `insert_le(e, s)` is `e` or comes from `s`.
pub proof fn lemma_insert_le_elems(e: DirEntry, s: Seq<DirEntry>, x: DirEntry)
    requires
        insert_le(e, s).contains(x),
    ensures
        x == e || s.contains(x),
    decreases s.len(),
{
    let r = insert_le(e, s);
    let i = choose|i: int| 0 <= i < r.len() && r[i] == x;
    if s.len() == 0 {
        assert(x == e);
    } else if entry_le(e, s[0]) {
        if i == 0 {
            assert(x == e);
        } else {
            assert(s[i - 1] == x);
        }
    } else {
        if i == 0 {
            assert(s[0] == x);
        } else {
            let rest = insert_le(e, s.drop_first());
            assert(rest[i - 1] == x);
            assert(rest.contains(x));
            lemma_insert_le_elems(e, s.drop_first(), x);
            if s.drop_first().contains(x) {
                let j = choose|j: int|
                    0 <= j < s.drop_first().len() && s.drop_first()[j] == x;
                assert(s[j + 1] == x);
            }
        }
    }
}

/// Inserting into a sorted listing keeps it sorted.
pub proof fn lemma_insert_le_sorted(e: DirEntry, s: Seq<DirEntry>)
    requires
        entries_sorted(s),
    ensures
        entries_sorted(insert_le(e, s)),
    decreases s.len(),
{
    let r = insert_le(e, s);
    if s.len() == 0 {
    } else if entry_le(e, s[0]) {
        assert forall|i: int, j: int| 0 <= i < j < r.len() implies #[trigger] entry_le(
            r[i],
            r[j],
        ) by {
            if i == 0 {
                if j > 1 {
                    lemma_entry_le_trans(e, s[0], s[j - 1]);
                }
            } else {
                assert(entry_le(s[i - 1], s[j - 1]));
            }
        }
    } else {
        let rest = s.drop_first();
        assert(entries_sorted(rest)) by {
            assert forall|i: int, j: int| 0 <= i < j < rest.len() implies #[trigger] entry_le(
                rest[i],
                rest[j],
            ) by {
                assert(entry_le(s[i + 1], s[j + 1]));
            }
        }
        lemma_insert_le_sorted(e, rest);
        lemma_insert_le_len(e, rest);
        let t = insert_le(e, rest);
        lemma_entry_le_total(e, s[0]);
        assert forall|m: int| 0 <= m < t.len() implies entry_le(s[0], t[m]) by {
            assert(t.contains(t[m]));
            lemma_insert_le_elems(e, rest, t[m]);
            if t[m] == e {
            } else {
                let k = choose|k: int| 0 <= k < rest.len() && rest[k] == t[m];
                assert(entry_le(s[0], s[k + 1]));
            }
        }
        assert forall|i: int, j: int| 0 <= i < j < r.len() implies #[trigger] entry_le(
            r[i],
            r[j],
        ) by {
            if i == 0 {
                assert(r[j] == t[j - 1]);
            } else {
                assert(entry_le(t[i - 1], t[j - 1]));
            }
        }
    }
}

/// `insert_le` yields the same entries as pushing, as a multiset.
pub proof fn lemma_insert_le_multiset(e: DirEntry, s: Seq<DirEntry>)
    ensures
        insert_le(e, s).to_multiset() == s.to_multiset().insert(e),
    decreases s.len(),
{
    broadcast use vstd::seq_lib::group_to_multiset_ensures;

    if s.len() == 0 {
        assert(seq![e] =~= Seq::<DirEntry>::empty().push(e));
        assert(Seq::<DirEntry>::empty().push(e).to_multiset() =~= Seq::<
            DirEntry,
        >::empty().to_multiset().insert(e));
        assert(s.to_multiset() =~= Seq::<DirEntry>::empty().to_multiset());
    } else if entry_le(e, s[0]) {
        assert(seq![e] + s =~= s.insert(0, e));
        vstd::seq_lib::to_multiset_insert(s, 0, e);
    } else {
        let rest = s.drop_first();
        lemma_insert_le_multiset(e, rest);
        lemma_multiset_commutative(seq![s[0]], insert_le(e, rest));
        lemma_multiset_commutative(seq![s[0]], rest);
        assert(seq![s[0]] + rest =~= s);
        assert((seq![s[0]] + insert_le(e, rest)).to_multiset() =~= s.to_multiset().insert(
            e,
        )) by {
            assert(insert_le(e, rest).to_multiset() == rest.to_multiset().insert(e));
        }
    }
}

/// The sorted listing is sorted and is a permutation of the input.
pub proof fn lemma_sort_entries_spec_ensures(s: Seq<DirEntry>)
    ensures
        entries_sorted(sort_entries_spec(s)),
        sort_entries_spec(s).to_multiset() == s.to_multiset(),
        sort_entries_spec(s).len() == s.len(),
    decreases s.len(),
{
    broadcast use vstd::seq_lib::group_to_multiset_ensures;

    if s.len() > 0 {
        lemma_sort_entries_spec_ensures(s.drop_last());
        lemma_insert_le_sorted(s.last(), sort_entries_spec(s.drop_last()));
        lemma_insert_le_multiset(s.last(), sort_entries_spec(s.drop_last()));
        lemma_insert_le_len(s.last(), sort_entries_spec(s.drop_last()));
        assert(s.drop_last().push(s.last()) =~= s);
        assert(s.drop_last().push(s.last()).to_multiset() == s.drop_last().to_multiset().insert(
            s.last(),
        ));
    }
}

/// In a sorted listing, directories stand before files, and entries of one
/// kind are in lexicographic name order.
pub proof fn lemma_sorted_partitioned(s: Seq<DirEntry>)
    requires
        entries_sorted(s),
    ensures
        forall|i: int, j: int|
            0 <= i < j < s.len() && (#[trigger] s[j]).is_dir ==> (#[trigger] s[i]).is_dir,
        forall|i: int, j: int|
            0 <= i < j < s.len() && (#[trigger] s[i]).is_dir == (#[trigger] s[j]).is_dir
                ==> lex_le(s[i].name@, s[j].name@),
{
    assert forall|i: int, j: int|
        0 <= i < j < s.len() && (#[trigger] s[j]).is_dir implies (#[trigger] s[i]).is_dir by {
        assert(entry_le(s[i], s[j]));
    }
    assert forall|i: int, j: int|
        0 <= i < j < s.len() && (#[trigger] s[i]).is_dir == (#[trigger] s[j]).is_dir implies lex_le(
        s[i].name@,
        s[j].name@,
    ) by {
        assert(entry_le(s[i], s[j]));
    }
}

/// Where `insert_le` places an entry: in front of the first element that it
/// is `entry_le` to.
pub proof fn lemma_insert_le_position(e: DirEntry, s: Seq<DirEntry>, j: int)
    requires
        0 <= j <= s.len(),
        forall|k: int| 0 <= k < j ==> !entry_le(e, #[trigger] s[k]),
        j < s.len() ==> entry_le(e, s[j]),
    ensures
        insert_le(e, s) == s.insert(j, e),
    decreases j,
{
    if j == 0 {
        if s.len() == 0 {
            assert(insert_le(e, s) =~= s.insert(0, e));
        } else {
            assert(insert_le(e, s) =~= s.insert(0, e));
        }
    } else {
        assert(!entry_le(e, s[0]));
        let rest = s.drop_first();
        lemma_insert_le_position(e, rest, j - 1);
        assert(seq![s[0]] + rest.insert(j - 1, e) =~= s.insert(j, e));
    }
}

/// Inserts an entry into a listing in front of the first element it is
/// `entry_le` to.
pub fn insert_sorted(v: &mut Vec<DirEntry>, e: DirEntry)
    ensures
        final(v)@ == insert_le(e, old(v)@),
{
    let ghost s = v@;
    let mut j: usize = 0;
    loop
        invariant
            v@ == s,
            j <= s.len(),
            forall|k: int| 0 <= k < j ==> !entry_le(e, #[trigger] s[k]),
        ensures
            v@ == s,
            j <= s.len(),
            forall|k: int| 0 <= k < j ==> !entry_le(e, #[trigger] s[k]),
            j < s.len() ==> entry_le(e, s[j as int]),
        decreases s.len() - j,
    {
        if j >= v.len() {
            break;
        }
        if entry_le_exec(&e, &v[j]) {
            break;
        }
        j += 1;
    }
    v.insert(j, e);
    proof {
        lemma_insert_le_position(e, s, j as int);
    }
}

/// Sorts a listing: directories before files, names in lexicographic order
/// within one kind.
pub fn sort_entries(entries: Vec<DirEntry>) -> (r: Vec<DirEntry>)
    ensures
        r@ == sort_entries_spec(entries@),
{
    let ghost orig = entries@;
    let mut src = entries;
    let mut r: Vec<DirEntry> = Vec::new();
    while src.len() > 0
        invariant
            src@.len() <= orig.len(),
            src@ =~= orig.skip(orig.len() - src@.len()),
            r@ == sort_entries_spec(orig.take(orig.len() - src@.len())),
        decreases src.len(),
    {
        let ghost done = orig.len() - src@.len();
        let ghost pre = src@;
        let e = src.remove(0);
        proof {
            assert(pre =~= orig.skip(done));
            assert(e == pre[0]);
            assert(orig.skip(done)[0] == orig[done]);
            assert(src@ =~= orig.skip(done + 1));
            let pref = orig.take(done + 1);
            assert(pref.drop_last() =~= orig.take(done));
            assert(pref.last() == orig[done]);
        }
        insert_sorted(&mut r, e);
    }
    proof {
        assert(orig.take(orig.len() as int) =~= orig);
    }
    r
}

} // verus!
