use dirnav::entry::{EntryKind, PathEntry};
use dirnav::sorter::Sorter;
use dirnav::text::{decimal_text, rank_texts, Rank};
use std::cmp::Ordering;

fn entry(name: &str, kind: EntryKind) -> PathEntry {
    PathEntry::new(format!("/root/{}", name), name.to_string(), kind)
}

fn file(name: &str) -> PathEntry {
    entry(name, EntryKind::File)
}

fn dir(name: &str) -> PathEntry {
    entry(name, EntryKind::Directory)
}

fn names(entries: &Vec<PathEntry>) -> Vec<String> {
    let mut out = Vec::new();
    for e in entries {
        out.push(e.name.clone());
    }
    out
}

#[test]
fn dirs_first_puts_directory_before_file() {
    assert_eq!(Sorter::DirsFirst.paths(&dir("Sub"), &file("a.txt")), Ordering::Less);
    assert_eq!(Sorter::DirsFirst.paths(&file("a.txt"), &dir("Sub")), Ordering::Greater);
    assert_eq!(Sorter::DirsFirst.paths(&dir("zzz"), &file("aaa")), Ordering::Less);
}

#[test]
fn dirs_first_ignores_case_within_a_group() {
    // By code points "B.txt" comes before "a.txt"; folded to lower case it comes after.
    assert_eq!(Sorter::DirsFirst.paths(&file("B.txt"), &file("a.txt")), Ordering::Greater);
    assert_eq!(Sorter::DirsFirst.paths(&file("a.txt"), &file("B.txt")), Ordering::Less);
    assert_eq!(Sorter::DirsFirst.paths(&dir("Beta"), &dir("alpha")), Ordering::Greater);
    assert_eq!(Sorter::DirsFirst.paths(&file("README"), &file("readme")), Ordering::Equal);
}

#[test]
fn dirs_first_counts_other_kinds_with_the_files() {
    assert_eq!(
        Sorter::DirsFirst.paths(&entry("a-link", EntryKind::Other), &dir("z")),
        Ordering::Greater
    );
    assert_eq!(
        Sorter::DirsFirst.paths(&entry("b-link", EntryKind::Other), &file("a")),
        Ordering::Greater
    );
}

#[test]
fn files_first_puts_file_before_directory_and_minds_case() {
    assert_eq!(Sorter::FilesFirst.paths(&file("z.txt"), &dir("a")), Ordering::Less);
    assert_eq!(Sorter::FilesFirst.paths(&dir("a"), &file("z.txt")), Ordering::Greater);
    assert_eq!(Sorter::FilesFirst.paths(&file("B.txt"), &file("a.txt")), Ordering::Less);
    assert_eq!(Sorter::FilesFirst.paths(&dir("b"), &dir("a")), Ordering::Greater);
}

#[test]
fn alphabetical_orders_by_name_alone() {
    assert_eq!(Sorter::Alphabetical.paths(&dir("b"), &file("a")), Ordering::Greater);
    assert_eq!(Sorter::Alphabetical.paths(&file("a"), &dir("b")), Ordering::Less);
    assert_eq!(Sorter::Alphabetical.paths(&file("B"), &file("a")), Ordering::Less);
    assert_eq!(Sorter::Alphabetical.paths(&file("same"), &dir("same")), Ordering::Equal);
}

#[test]
fn rank_agrees_with_paths() {
    assert_eq!(Sorter::DirsFirst.rank(&dir("Sub"), &file("a.txt")), Rank::Before);
    assert_eq!(Sorter::DirsFirst.rank(&file("a.txt"), &dir("Sub")), Rank::After);
    assert_eq!(Sorter::DirsFirst.rank(&file("A"), &file("a")), Rank::Same);
}

#[test]
fn shorter_name_comes_before_its_extensions() {
    assert_eq!(rank_texts("abc", "abcd"), Rank::Before);
    assert_eq!(rank_texts("abcd", "abc"), Rank::After);
    assert_eq!(rank_texts("", ""), Rank::Same);
    assert_eq!(rank_texts("", "a"), Rank::Before);
    assert_eq!(rank_texts("abd", "abc"), Rank::After);
}

#[test]
fn texts_are_ordered_by_code_point() {
    assert_eq!(rank_texts("é", "z"), Rank::After);
    assert_eq!(rank_texts("z", "é"), Rank::Before);
    assert_eq!(rank_texts("日本", "日本"), Rank::Same);
    assert_eq!(rank_texts("日本", "日本語"), Rank::Before);
    // The order is that of `str` itself.
    for (a, b) in [("é", "z"), ("a", "B"), ("\u{10000}", "\u{ffff}"), ("x", "x")] {
        let expected = match a.cmp(b) {
            Ordering::Less => Rank::Before,
            Ordering::Equal => Rank::Same,
            Ordering::Greater => Rank::After,
        };
        assert_eq!(rank_texts(a, b), expected);
    }
}

#[test]
fn default_policy_lists_sub_before_a_and_z() {
    let sorted = Sorter::DirsFirst.sort(vec![file("a.txt"), dir("Sub"), file("z.txt")]);
    assert_eq!(names(&sorted), vec!["Sub", "a.txt", "z.txt"]);
}

#[test]
fn sort_puts_all_directories_before_all_files() {
    let input = vec![
        file("m.rs"),
        dir("zeta"),
        file("Alpha.txt"),
        dir("Beta"),
        file("beta.txt"),
        dir("alpha"),
        entry("link", EntryKind::Other),
    ];
    let sorted = Sorter::DirsFirst.sort(input);
    assert_eq!(
        names(&sorted),
        vec!["alpha", "Beta", "zeta", "Alpha.txt", "beta.txt", "link", "m.rs"]
    );
    let first_file = sorted.iter().position(|e| !e.is_dir()).unwrap();
    assert!(sorted.iter().skip(first_file).all(|e| !e.is_dir()));
}

#[test]
fn sort_keeps_the_entries() {
    let sorted = Sorter::Alphabetical.sort(vec![file("c"), file("a"), dir("b"), file("a")]);
    assert_eq!(names(&sorted), vec!["a", "a", "b", "c"]);
    assert_eq!(sorted[2].kind, EntryKind::Directory);
}

#[test]
fn sort_is_stable_for_names_that_tie() {
    let sorted = Sorter::DirsFirst.sort(vec![file("readme"), file("README"), file("ReadMe")]);
    assert_eq!(names(&sorted), vec!["readme", "README", "ReadMe"]);
    let sorted = Sorter::DirsFirst.sort(vec![file("README"), file("b"), file("readme"), file("a")]);
    assert_eq!(names(&sorted), vec!["a", "b", "README", "readme"]);
}

#[test]
fn sort_under_files_first_and_of_nothing() {
    let sorted = Sorter::FilesFirst.sort(vec![dir("a"), file("b"), dir("C"), file("A")]);
    assert_eq!(names(&sorted), vec!["A", "b", "C", "a"]);
    assert!(Sorter::DirsFirst.sort(Vec::new()).is_empty());
}

#[test]
fn sort_handles_a_long_reversed_listing() {
    let mut input = Vec::new();
    for i in (0..500).rev() {
        input.push(file(&format!("{:04}", i)));
    }
    let sorted = Sorter::DirsFirst.sort(input);
    assert_eq!(sorted.len(), 500);
    for i in 0..500 {
        assert_eq!(sorted[i].name, format!("{:04}", i));
    }
}

#[test]
fn decimal_text_writes_numbers() {
    assert_eq!(decimal_text(0), "0");
    assert_eq!(decimal_text(7), "7");
    assert_eq!(decimal_text(10), "10");
    assert_eq!(decimal_text(12345), "12345");
    assert_eq!(decimal_text(usize::MAX), usize::MAX.to_string());
}
