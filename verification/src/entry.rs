//! Directory entries and the order in which a directory is listed:
//! directories before files, and each group by ascending name.

use vstd::multiset::Multiset;
use vstd::prelude::*;
use vstd::relations::{sorted_by, total_ordering};
use vstd::seq_lib::{lemma_sorted_unique, to_multiset_build, to_multiset_insert};
use crate::names::{
    lemma_name_lt_asymmetric, lemma_name_lt_connected, lemma_name_lt_transitive, name_le,
    name_precedes,
};

verus! {

/// One immediate entry of a directory: its base name and whether it is a
/// directory.
#[derive(Debug)]
pub struct DirEntry {
    pub name: String,
    pub is_dir: bool,
}

/// What an entry is, mathematically: the characters of its name and its kind.
pub struct EntryView {
    pub name: Seq<char>,
    pub is_dir: bool,
}

impl View for DirEntry {
    type V = EntryView;

    open spec fn view(&self) -> EntryView {
        EntryView { name: self.name@, is_dir: self.is_dir }
    }
}

impl Clone for DirEntry {
    fn clone(&self) -> (copy: Self)
        ensures
            copy == *self,
    {
        DirEntry { name: self.name.clone(), is_dir: self.is_dir }
    }
}

impl DirEntry {
    /// An entry with the given name and kind.
    pub fn new(name: String, is_dir: bool) -> (entry: DirEntry)
        ensures
            entry.name == name,
            entry.is_dir == is_dir,
    {
        DirEntry { name, is_dir }
    }
}

/// The entries of a list, each by its view.
pub open spec fn listing_view(entries: Seq<DirEntry>) -> Seq<EntryView> {
    entries.map_values(|e: DirEntry| e@)
}

/// `x` is listed no later than `y`: a directory goes before a file, and two
/// entries of one kind go by their names.
pub open spec fn entry_le(x: EntryView, y: EntryView) -> bool {
    if x.is_dir != y.is_dir {
        x.is_dir
    } else {
        name_le(x.name, y.name)
    }
}

/// A list is in listing order when no entry is listed later than one that
/// follows it.
pub open spec fn is_sorted_listing(s: Seq<EntryView>) -> bool {
    forall|i: int, j: int| 0 <= i < j < s.len() ==> entry_le(#[trigger] s[i], #[trigger] s[j])
}

/// Two lists hold the same entries, each as often as the other, in whatever
/// order.
pub open spec fn same_entries(a: Seq<EntryView>, b: Seq<EntryView>) -> bool {
    a.to_multiset() == b.to_multiset()
}

/// The listing order as a relation.
pub open spec fn listing_order() -> spec_fn(EntryView, EntryView) -> bool {
    |x: EntryView, y: EntryView| entry_le(x, y)
}

/// Of any two entries one is listed no later than the other.
pub proof fn lemma_entry_le_connected(x: EntryView, y: EntryView)
    ensures
        entry_le(x, y) || entry_le(y, x),
{
    lemma_name_lt_asymmetric(x.name, y.name);
}

/// Two entries that are each listed no later than the other are the same entry.
pub proof fn lemma_entry_le_antisymmetric(x: EntryView, y: EntryView)
    requires
        entry_le(x, y),
        entry_le(y, x),
    ensures
        x == y,
{
    lemma_name_lt_connected(x.name, y.name);
}

/// The listing order is transitive.
pub proof fn lemma_entry_le_transitive(x: EntryView, y: EntryView, z: EntryView)
    requires
        entry_le(x, y),
        entry_le(y, z),
    ensures
        entry_le(x, z),
{
    if x.is_dir == y.is_dir && y.is_dir == z.is_dir && !name_le(x.name, z.name) {
        lemma_name_lt_connected(x.name, y.name);
        if x.name != y.name {
            lemma_name_lt_transitive(z.name, x.name, y.name);
        }
    }
}

/// The listing order is a total order on entries.
pub proof fn lemma_listing_order_total()
    ensures
        total_ordering(listing_order()),
{
    let r = listing_order();
    assert forall|x: EntryView| #[trigger] r(x, x) by {
        lemma_name_lt_asymmetric(x.name, x.name);
    }
    assert forall|x: EntryView, y: EntryView| #[trigger] r(x, y) && #[trigger] r(y, x) implies x
        == y by {
        lemma_entry_le_antisymmetric(x, y);
    }
    assert forall|x: EntryView, y: EntryView, z: EntryView| #[trigger]
        r(x, y) && #[trigger] r(y, z) implies r(x, z) by {
        lemma_entry_le_transitive(x, y, z);
    }
    assert forall|x: EntryView, y: EntryView| #[trigger] r(x, y) || #[trigger] r(y, x) by {
        lemma_entry_le_connected(x, y);
    }
}

/// The listing of the given entries: the same entries in listing order.
pub open spec fn listing_of(given: Seq<EntryView>) -> Seq<EntryView> {
    given.sort_by(listing_order())
}

/// The listing holds the given entries, in listing order.
pub proof fn lemma_listing_of(given: Seq<EntryView>)
    ensures
        is_sorted_listing(listing_of(given)),
        same_entries(listing_of(given), given),
{
    lemma_listing_order_total();
    given.lemma_sort_by_ensures(listing_order());
    let sorted = listing_of(given);
    assert forall|i: int, j: int| 0 <= i < j < sorted.len() implies entry_le(
        #[trigger] sorted[i],
        #[trigger] sorted[j],
    ) by {
        assert(listing_order()(sorted[i], sorted[j]));
    }
}

/// However the entries of a directory were handed over, their listing is the
/// same: two lists in listing order that hold the same entries are equal.
pub proof fn lemma_listing_unique(a: Seq<EntryView>, b: Seq<EntryView>)
    requires
        is_sorted_listing(a),
        is_sorted_listing(b),
        same_entries(a, b),
    ensures
        a == b,
{
    lemma_listing_order_total();
    assert(sorted_by(a, listing_order()));
    assert(sorted_by(b, listing_order()));
    lemma_sorted_unique(a, b, listing_order());
}

/// In a list in listing order every directory stands before every file.
pub proof fn lemma_directories_first(s: Seq<EntryView>, i: int, j: int)
    requires
        is_sorted_listing(s),
        0 <= i < s.len(),
        0 <= j < s.len(),
        s[i].is_dir,
        !s[j].is_dir,
    ensures
        i < j,
{
    if j < i {
        assert(entry_le(s[j], s[i]));
    }
}

/// In a list in listing order the names of the directories ascend, and so do
/// the names of the files.
pub proof fn lemma_names_ascend(s: Seq<EntryView>, i: int, j: int)
    requires
        is_sorted_listing(s),
        0 <= i < j < s.len(),
        s[i].is_dir == s[j].is_dir,
    ensures
        name_le(s[i].name, s[j].name),
{
    assert(entry_le(s[i], s[j]));
}

/// Tells whether `x` is listed no later than `y`.
pub fn listed_no_later(x: &DirEntry, y: &DirEntry) -> (r: bool)
    ensures
        r == entry_le(x@, y@),
{
    if x.is_dir != y.is_dir {
        x.is_dir
    } else {
        !name_precedes(y.name.as_str(), x.name.as_str())
    }
}

/// The place at which `entry` enters a list in listing order: behind every
/// entry that is listed strictly before it, and before the others.
fn insertion_point(sorted: &Vec<DirEntry>, entry: &DirEntry) -> (pos: usize)
    ensures
        pos <= sorted.len(),
        forall|k: int| 0 <= k < pos ==> !entry_le(entry@, #[trigger] sorted[k]@),
        pos < sorted.len() ==> entry_le(entry@, sorted[pos as int]@),
{
    let mut pos: usize = 0;
    while pos < sorted.len()
        invariant
            pos <= sorted.len(),
            forall|k: int| 0 <= k < pos ==> !entry_le(entry@, #[trigger] sorted[k]@),
        decreases sorted.len() - pos,
    {
        if listed_no_later(entry, &sorted[pos]) {
            return pos;
        }
        pos = pos + 1;
    }
    pos
}

/// Putting an entry at its insertion point keeps a list in listing order.
proof fn lemma_insert_keeps_order(s: Seq<EntryView>, pos: int, e: EntryView)
    requires
        is_sorted_listing(s),
        0 <= pos <= s.len(),
        forall|k: int| 0 <= k < pos ==> !entry_le(e, #[trigger] s[k]),
        pos < s.len() ==> entry_le(e, s[pos]),
    ensures
        is_sorted_listing(s.insert(pos, e)),
{
    let t = s.insert(pos, e);
    assert forall|i: int, j: int| 0 <= i < j < t.len() implies entry_le(
        #[trigger] t[i],
        #[trigger] t[j],
    ) by {
        if j == pos {
            assert(t[i] == s[i]);
            lemma_entry_le_connected(e, s[i]);
        } else if i == pos {
            assert(t[j] == s[j - 1]);
            if pos < j - 1 {
                assert(entry_le(s[pos], s[j - 1]));
                lemma_entry_le_transitive(e, s[pos], s[j - 1]);
            }
        } else {
            let si = if i < pos { i } else { i - 1 };
            let sj = if j < pos { j } else { j - 1 };
            assert(t[i] == s[si] && t[j] == s[sj]);
            assert(entry_le(s[si], s[sj]));
        }
    }
}

/// A list without entries holds nothing.
proof fn lemma_nothing_listed(s: Seq<EntryView>)
    requires
        s.len() == 0,
    ensures
        s.to_multiset() == Multiset::<EntryView>::empty(),
{
    broadcast use vstd::seq_lib::group_to_multiset_ensures;
    broadcast use vstd::multiset::group_multiset_axioms;

    assert(s.to_multiset().len() == 0);
    assert(s.to_multiset() =~= Multiset::<EntryView>::empty());
}

/// Lists the entries of a directory: the same entries, directories first,
/// each group by ascending name.
pub fn sort_entries(entries: Vec<DirEntry>) -> (listing: Vec<DirEntry>)
    ensures
        is_sorted_listing(listing_view(listing@)),
        same_entries(listing_view(listing@), listing_view(entries@)),
        listing_view(listing@) == listing_of(listing_view(entries@)),
{
    let ghost given = listing_view(entries@);
    let mut rest = entries;
    let mut listing: Vec<DirEntry> = Vec::new();
    proof {
        lemma_nothing_listed(listing_view(listing@));
        assert(listing_view(listing@).to_multiset().add(given.to_multiset())
            =~= given.to_multiset());
    }
    while rest.len() > 0
        invariant
            is_sorted_listing(listing_view(listing@)),
            listing_view(listing@).to_multiset().add(listing_view(rest@).to_multiset())
                == given.to_multiset(),
        decreases rest.len(),
    {
        let ghost before = listing_view(listing@);
        let ghost waiting = listing_view(rest@);
        let entry = rest.pop().unwrap();
        let pos = insertion_point(&listing, &entry);
        proof {
            assert(listing_view(rest@) =~= waiting.drop_last());
            assert(waiting =~= waiting.drop_last().push(entry@));
            lemma_insert_keeps_order(before, pos as int, entry@);
        }
        listing.insert(pos, entry);
        proof {
            assert(listing_view(listing@) =~= before.insert(pos as int, entry@));
            to_multiset_insert(before, pos as int, entry@);
            to_multiset_build(waiting.drop_last(), entry@);
            assert(before.to_multiset().insert(entry@).add(waiting.drop_last().to_multiset())
                =~= before.to_multiset().add(waiting.drop_last().to_multiset().insert(entry@)));
        }
    }
    proof {
        lemma_nothing_listed(listing_view(rest@));
        assert(listing_view(listing@).to_multiset().add(listing_view(rest@).to_multiset())
            =~= listing_view(listing@).to_multiset());
        lemma_listing_of(given);
        lemma_listing_unique(listing_view(listing@), listing_of(given));
    }
    listing
}

} // verus!
