//! Computing the listing of a directory as the dialog shows it: hidden
//! entries are filtered out unless asked for, and the remainder is sorted
//! with directories before files and names in lexicographic order.

use vstd::prelude::*;
use crate::entry::DirEntry;
use crate::entry::is_hidden_name;
use crate::entry::is_hidden_exec;
use crate::entry::lex_le;
use crate::sort::entries_sorted;
use crate::sort::sort_entries_spec;
use crate::sort::lemma_sort_entries_spec_ensures;
use crate::sort::lemma_sorted_partitioned;

verus! {

/// An entry is visible when hidden files are shown or its name does not
/// begin with a dot.
pub open spec fn entry_visible(e: DirEntry, show_hidden: bool) -> bool {
    show_hidden || !is_hidden_name(e.name@)
}

/// The subsequence of visible entries, in their given order.
pub open spec fn filter_visible(s: Seq<DirEntry>, show_hidden: bool) -> Seq<DirEntry>
    decreases s.len(),
{
    if s.len() == 0 {
        Seq::empty()
    } else {
        let rest = filter_visible(s.drop_last(), show_hidden);
        if entry_visible(s.last(), show_hidden) {
            rest.push(s.last())
        } else {
            rest
        }
    }
}

/// A single visible entry comes from the input listing.
pub proof fn lemma_filter_visible_contains_one(s: Seq<DirEntry>, show_hidden: bool, x: DirEntry)
    requires
        filter_visible(s, show_hidden).contains(x),
    ensures
        s.contains(x),
    decreases s.len(),
{
    let f = filter_visible(s, show_hidden);
    let rest = filter_visible(s.drop_last(), show_hidden);
    if entry_visible(s.last(), show_hidden) && x == s.last() {
        assert(s[s.len() - 1] == x);
    } else {
        let i = choose|i: int| 0 <= i < f.len() && f[i] == x;
        assert(rest[i] == x);
        assert(rest.contains(x));
        lemma_filter_visible_contains_one(s.drop_last(), show_hidden, x);
        let j = choose|j: int| 0 <= j < s.drop_last().len() && s.drop_last()[j] == x;
        assert(s[j] == x);
    }
}

/// Every visible entry comes from the input listing.
pub proof fn lemma_filter_visible_contains(s: Seq<DirEntry>, show_hidden: bool)
    ensures
        forall|x: DirEntry| filter_visible(s, show_hidden).contains(x) ==> s.contains(x),
{
    assert forall|x: DirEntry| filter_visible(s, show_hidden).contains(x) implies s.contains(
        x,
    ) by {
        lemma_filter_visible_contains_one(s, show_hidden, x);
    }
}

/// With hidden files shown, filtering keeps the whole listing.
pub proof fn lemma_filter_visible_all(s: Seq<DirEntry>)
    ensures
        filter_visible(s, true) == s,
    decreases s.len(),
{
    if s.len() == 0 {
        assert(filter_visible(s, true) =~= s);
    } else {
        lemma_filter_visible_all(s.drop_last());
        assert(filter_visible(s, true) =~= s);
    }
}

/// Turning `show_hidden_files` on only grows the visible entry set: every
/// entry visible with hidden files off is also visible with them on.
pub proof fn lemma_show_hidden_superset(s: Seq<DirEntry>)
    ensures
        forall|x: DirEntry|
            filter_visible(s, false).contains(x) ==> filter_visible(s, true).contains(x),
{
    lemma_filter_visible_contains(s, false);
    lemma_filter_visible_all(s);
}

/// The listing as the dialog shows it: the visible entries, sorted.
pub open spec fn listed_entries(entries: Seq<DirEntry>, show_hidden: bool) -> Seq<DirEntry> {
    sort_entries_spec(filter_visible(entries, show_hidden))
}

/// The listing the dialog shows is partitioned with directories before
/// files, each partition is in lexicographic name order, and it holds
/// exactly the visible entries of the input.
pub proof fn lemma_listing_order(entries: Seq<DirEntry>, show_hidden: bool)
    ensures
        entries_sorted(listed_entries(entries, show_hidden)),
        forall|i: int, j: int|
            0 <= i < j < listed_entries(entries, show_hidden).len() && (#[trigger] listed_entries(
                entries,
                show_hidden,
            )[j]).is_dir ==> (#[trigger] listed_entries(entries, show_hidden)[i]).is_dir,
        forall|i: int, j: int|
            0 <= i < j < listed_entries(entries, show_hidden).len() && (#[trigger] listed_entries(
                entries,
                show_hidden,
            )[i]).is_dir == (#[trigger] listed_entries(entries, show_hidden)[j]).is_dir
                ==> lex_le(
                listed_entries(entries, show_hidden)[i].name@,
                listed_entries(entries, show_hidden)[j].name@,
            ),
        listed_entries(entries, show_hidden).to_multiset() == filter_visible(
            entries,
            show_hidden,
        ).to_multiset(),
{
    lemma_sort_entries_spec_ensures(filter_visible(entries, show_hidden));
    lemma_sorted_partitioned(listed_entries(entries, show_hidden));
}

/// Computes the visible entries of a listing, preserving their order.
pub fn visible_entries(entries: &Vec<DirEntry>, show_hidden: bool) -> (r: Vec<DirEntry>)
    ensures
        r@ == filter_visible(entries@, show_hidden),
{
    let mut r: Vec<DirEntry> = Vec::new();
    let mut i: usize = 0;
    while i < entries.len()
        invariant
            i <= entries.len(),
            r@ == filter_visible(entries@.take(i as int), show_hidden),
        decreases entries.len() - i,
    {
        let e = &entries[i];
        let keep = if show_hidden {
            true
        } else {
            !is_hidden_exec(e.name.as_str())
        };
        if keep {
            let copy = DirEntry { name: e.name.clone(), is_dir: e.is_dir };
            assert(copy == entries@[i as int]);
            r.push(copy);
        }
        proof {
            let pref = entries@.take(i + 1 as int);
            assert(pref.drop_last() =~= entries@.take(i as int));
            assert(pref.last() == entries@[i as int]);
        }
        i += 1;
    }
    proof {
        assert(entries@.take(entries@.len() as int) =~= entries@);
    }
    r
}

} // verus!
