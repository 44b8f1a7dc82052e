//! The controls the dialog asks the host to draw for a listing: one button
//! per shown entry, labelled with a kind marker and the entry's base name.
//! When the dialog is restricted to directories, file entries get no
//! control at all.

use vstd::prelude::*;
use crate::entry::DirEntry;

verus! {

/// One button of the entry list: its on-screen label, the entry's base
/// name, and the entry's kind.
#[derive(Debug, PartialEq, Eq)]
pub struct EntryControl {
    pub label: String,
    pub name: String,
    pub is_dir: bool,
}

/// The label prefix of a directory control.
pub open spec fn dir_marker() -> Seq<char> {
    "[dir] \t"@
}

/// The label prefix of a file control.
pub open spec fn file_marker() -> Seq<char> {
    "[file]\t"@
}

/// The label of an entry's control: its kind marker followed by its name.
pub open spec fn control_label(e: DirEntry) -> Seq<char> {
    if e.is_dir {
        dir_marker() + e.name@
    } else {
        file_marker() + e.name@
    }
}

/// A control stands for an entry: same kind, same name, and the label the
/// entry calls for.
pub open spec fn control_matches(c: EntryControl, e: DirEntry) -> bool {
    &&& c.is_dir == e.is_dir
    &&& c.name@ == e.name@
    &&& c.label@ == control_label(e)
}

/// The subsequence of directory entries, in their given order.
pub open spec fn filter_dirs(s: Seq<DirEntry>) -> Seq<DirEntry>
    decreases s.len(),
{
    if s.len() == 0 {
        Seq::empty()
    } else {
        let rest = filter_dirs(s.drop_last());
        if s.last().is_dir {
            rest.push(s.last())
        } else {
            rest
        }
    }
}

/// The entries that get a control: all of them, or only the directories
/// when the dialog is restricted to directories.
pub open spec fn shown_entries(s: Seq<DirEntry>, dirs_only: bool) -> Seq<DirEntry> {
    if dirs_only {
        filter_dirs(s)
    } else {
        s
    }
}

/// A control list stands for an entry list, element by element.
pub open spec fn controls_match(cs: Seq<EntryControl>, s: Seq<DirEntry>) -> bool {
    &&& cs.len() == s.len()
    &&& forall|i: int| 0 <= i < s.len() ==> control_matches(#[trigger] cs[i], s[i])
}

/// Everything `filter_dirs` keeps is a directory.
pub proof fn lemma_filter_dirs_dirs(s: Seq<DirEntry>)
    ensures
        forall|i: int| 0 <= i < filter_dirs(s).len() ==> (#[trigger] filter_dirs(s)[i]).is_dir,
    decreases s.len(),
{
    if s.len() > 0 {
        lemma_filter_dirs_dirs(s.drop_last());
        let rest = filter_dirs(s.drop_last());
        assert forall|i: int| 0 <= i < filter_dirs(s).len() implies (#[trigger] filter_dirs(
            s,
        )[i]).is_dir by {
            if s.last().is_dir && i == rest.len() {
            } else {
                assert(filter_dirs(s)[i] == rest[i]);
            }
        }
    }
}

/// Builds an entry's label.
fn make_label(e: &DirEntry) -> (r: String)
    ensures
        r@ == control_label(*e),
{
    let marker = if e.is_dir {
        "[dir] \t"
    } else {
        "[file]\t"
    };
    String::from_str(marker).concat(e.name.as_str())
}

/// Builds the control list of a listing: one control per entry, files left
/// out when the dialog is restricted to directories.
pub fn build_controls(entries: &Vec<DirEntry>, dirs_only: bool) -> (r: Vec<EntryControl>)
    ensures
        controls_match(r@, shown_entries(entries@, dirs_only)),
        dirs_only ==> forall|i: int| 0 <= i < r@.len() ==> (#[trigger] r@[i]).is_dir,
{
    let mut r: Vec<EntryControl> = Vec::new();
    let mut i: usize = 0;
    while i < entries.len()
        invariant
            i <= entries.len(),
            controls_match(r@, shown_entries(entries@.take(i as int), dirs_only)),
        decreases entries.len() - i,
    {
        let e = &entries[i];
        if e.is_dir || !dirs_only {
            let c = EntryControl {
                label: make_label(e),
                name: e.name.clone(),
                is_dir: e.is_dir,
            };
            r.push(c);
        }
        proof {
            let pref = entries@.take(i + 1 as int);
            assert(pref.drop_last() =~= entries@.take(i as int));
            assert(pref.last() == entries@[i as int]);
            if !dirs_only {
                assert(shown_entries(pref, dirs_only) =~= entries@.take(i as int).push(
                    entries@[i as int],
                ));
            }
        }
        i += 1;
    }
    proof {
        assert(entries@.take(entries@.len() as int) =~= entries@);
        if dirs_only {
            lemma_filter_dirs_dirs(entries@);
        }
    }
    r
}

} // verus!
