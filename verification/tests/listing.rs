use project_tabs::entry::{listed_no_later, sort_entries, DirEntry};
use project_tabs::names::name_precedes;

fn entry(name: &str, is_dir: bool) -> DirEntry {
    DirEntry::new(name.to_string(), is_dir)
}

fn pairs(listing: &[DirEntry]) -> Vec<(String, bool)> {
    listing.iter().map(|e| (e.name.clone(), e.is_dir)).collect()
}

fn expect(items: &[(&str, bool)]) -> Vec<(String, bool)> {
    items.iter().map(|(n, d)| (n.to_string(), *d)).collect()
}

#[test]
fn directories_come_before_files() {
    let listing = sort_entries(vec![
        entry("zeta.txt", false),
        entry("src", true),
        entry("Alpha", true),
        entry("alpha", false),
        entry("Makefile", false),
        entry("docs", true),
    ]);
    assert_eq!(
        pairs(&listing),
        expect(&[
            ("Alpha", true),
            ("docs", true),
            ("src", true),
            ("Makefile", false),
            ("alpha", false),
            ("zeta.txt", false),
        ])
    );
}

#[test]
fn listing_does_not_depend_on_read_order() {
    let one = sort_entries(vec![
        entry("b", false),
        entry("a", true),
        entry("c", true),
        entry("a", false),
    ]);
    let other = sort_entries(vec![
        entry("a", false),
        entry("c", true),
        entry("b", false),
        entry("a", true),
    ]);
    assert_eq!(pairs(&one), pairs(&other));
    assert_eq!(pairs(&one), expect(&[("a", true), ("c", true), ("a", false), ("b", false)]));
}

#[test]
fn upper_case_sorts_before_lower_case() {
    let listing = sort_entries(vec![entry("apple", false), entry("Zebra", false), entry("Apple", false)]);
    assert_eq!(pairs(&listing), expect(&[("Apple", false), ("Zebra", false), ("apple", false)]));
}

#[test]
fn an_empty_directory_lists_nothing() {
    assert!(sort_entries(Vec::new()).is_empty());
}

#[test]
fn a_single_entry_is_its_own_listing() {
    let listing = sort_entries(vec![entry("only", false)]);
    assert_eq!(pairs(&listing), expect(&[("only", false)]));
}

#[test]
fn equal_entries_are_all_kept() {
    let listing = sort_entries(vec![entry("x", false), entry("x", false), entry("x", true)]);
    assert_eq!(pairs(&listing), expect(&[("x", true), ("x", false), ("x", false)]));
}

#[test]
fn a_sorted_listing_stays_as_it_is() {
    let listing = sort_entries(vec![entry("a", true), entry("b", true), entry("a", false)]);
    assert_eq!(pairs(&listing), expect(&[("a", true), ("b", true), ("a", false)]));
}

#[test]
fn a_reversed_listing_is_put_right() {
    let listing = sort_entries(vec![
        entry("d", false),
        entry("c", false),
        entry("b", true),
        entry("a", true),
    ]);
    assert_eq!(pairs(&listing), expect(&[("a", true), ("b", true), ("c", false), ("d", false)]));
}

#[test]
fn a_prefix_precedes_the_longer_name() {
    assert!(name_precedes("ab", "abc"));
    assert!(!name_precedes("abc", "ab"));
    assert!(name_precedes("", "a"));
    assert!(!name_precedes("a", ""));
}

#[test]
fn no_name_precedes_itself() {
    assert!(!name_precedes("same", "same"));
    assert!(!name_precedes("", ""));
}

#[test]
fn the_first_difference_decides() {
    assert!(name_precedes("abd", "abz"));
    assert!(!name_precedes("abz", "abd"));
    assert!(name_precedes("a10", "a9"));
    assert!(name_precedes("B", "a"));
}

#[test]
fn names_go_by_scalar_value() {
    assert!(name_precedes("z", "\u{e9}"));
    assert!(!name_precedes("\u{e9}", "z"));
    assert!(name_precedes("\u{e9}", "\u{1F4C1}"));
    assert!(name_precedes("\u{ffff}", "\u{10000}"));
}

#[test]
fn name_order_agrees_with_string_order() {
    let names = ["", "a", "A", "ab", "b", "\u{e9}", "\u{4e2d}", "\u{1F4C1}", "a\u{e9}", "~", "_x", "10", "9"];
    for a in names {
        for b in names {
            assert_eq!(name_precedes(a, b), a < b);
        }
    }
}

#[test]
fn a_directory_is_listed_before_a_file_of_any_name() {
    assert!(listed_no_later(&entry("zzz", true), &entry("aaa", false)));
    assert!(!listed_no_later(&entry("aaa", false), &entry("zzz", true)));
}

#[test]
fn entries_of_one_kind_go_by_name() {
    assert!(listed_no_later(&entry("a", true), &entry("b", true)));
    assert!(!listed_no_later(&entry("b", false), &entry("a", false)));
    assert!(listed_no_later(&entry("a", false), &entry("a", false)));
}

#[test]
fn a_cloned_entry_equals_the_original() {
    let e = entry("notes.md", false);
    let c = e.clone();
    assert_eq!(c.name, "notes.md");
    assert!(!c.is_dir);
}
