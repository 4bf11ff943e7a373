use dirnav::directory_entry::DirectoryEntry;
use dirnav::entry::{EntryKind, FilesystemError, PathEntry};
use dirnav::sorter::Sorter;

fn file(name: &str) -> PathEntry {
    PathEntry::new(format!("/root/{}", name), name.to_string(), EntryKind::File)
}

fn dir(name: &str) -> PathEntry {
    PathEntry::new(format!("/root/{}", name), name.to_string(), EntryKind::Directory)
}

fn names(listing: &DirectoryEntry) -> Vec<String> {
    let mut out = Vec::new();
    for e in listing.contents() {
        out.push(e.name.clone());
    }
    out
}

fn root(children: Vec<PathEntry>, now: u64) -> DirectoryEntry {
    DirectoryEntry::new("/root".to_string(), Some("/".to_string()), Ok(children), now).unwrap()
}

#[test]
fn new_lists_the_children_sorted() {
    let listing = root(vec![file("a.txt"), dir("Sub"), file("z.txt")], 42);
    assert_eq!(listing.path(), "/root");
    assert_eq!(listing.parent(), &Some("/".to_string()));
    assert_eq!(names(&listing), vec!["Sub", "a.txt", "z.txt"]);
    assert_eq!(listing.len(), 3);
    assert_eq!(listing.last_update(), 42);
    assert_eq!(listing.sorter(), Sorter::DirsFirst);
    assert_eq!(listing.refresh_after(), 0);
    assert_eq!(listing.get(0), Some(&dir("Sub")));
    assert_eq!(listing.get(3), None);
}

#[test]
fn new_at_the_root_has_no_parent() {
    let listing = DirectoryEntry::new("/".to_string(), None, Ok(Vec::new()), 0).unwrap();
    assert_eq!(listing.parent(), &None);
    assert_eq!(listing.len(), 0);
    assert_eq!(listing.get(0), None);
}

#[test]
fn new_fails_with_the_error_of_the_read() {
    for e in [
        FilesystemError::NotFound,
        FilesystemError::PermissionDenied,
        FilesystemError::NotADirectory,
        FilesystemError::Other,
    ] {
        let r = DirectoryEntry::new("/gone".to_string(), Some("/".to_string()), Err(e), 5);
        assert_eq!(r.err(), Some(e));
    }
}

#[test]
fn with_policy_sorts_under_the_policy() {
    let listing = DirectoryEntry::with_policy(
        "/root".to_string(),
        Some("/".to_string()),
        Ok(vec![dir("b"), file("C"), file("a")]),
        0,
        Sorter::FilesFirst,
        1000,
    )
    .unwrap();
    assert_eq!(names(&listing), vec!["C", "a", "b"]);
    assert_eq!(listing.sorter(), Sorter::FilesFirst);
    assert_eq!(listing.refresh_after(), 1000);
    let r = DirectoryEntry::with_policy(
        "/root".to_string(),
        None,
        Err(FilesystemError::NotADirectory),
        0,
        Sorter::Alphabetical,
        0,
    );
    assert_eq!(r.err(), Some(FilesystemError::NotADirectory));
}

#[test]
fn default_listing_is_always_due() {
    let listing = root(Vec::new(), 100);
    assert!(listing.should_update(100));
    assert!(listing.should_update(101));
    assert!(listing.should_update(0));
}

#[test]
fn listing_with_threshold_is_due_once_the_time_has_passed() {
    let listing = DirectoryEntry::with_policy(
        "/root".to_string(),
        None,
        Ok(Vec::new()),
        5000,
        Sorter::DirsFirst,
        1000,
    )
    .unwrap();
    assert!(!listing.should_update(5000));
    assert!(!listing.should_update(5999));
    assert!(listing.should_update(6000));
    assert!(listing.should_update(u64::MAX));
    // A clock that ran backwards counts as no time passed.
    assert!(!listing.should_update(10));
}

#[test]
fn update_replaces_the_contents_and_resets_the_time() {
    let mut listing = root(vec![file("a")], 0);
    let r = listing.update(Ok(vec![file("c"), dir("B"), file("b")]), 250);
    assert_eq!(r, Ok(()));
    assert_eq!(names(&listing), vec!["B", "b", "c"]);
    assert_eq!(listing.last_update(), 250);
    assert_eq!(listing.path(), "/root");
    assert_eq!(listing.parent(), &Some("/".to_string()));
}

#[test]
fn update_keeps_the_contents_when_the_read_fails() {
    let mut listing = root(vec![file("a"), file("b")], 7);
    let r = listing.update(Err(FilesystemError::PermissionDenied), 250);
    assert_eq!(r, Err(FilesystemError::PermissionDenied));
    assert_eq!(names(&listing), vec!["a", "b"]);
    assert_eq!(listing.last_update(), 7);
}

#[test]
fn update_does_nothing_before_the_listing_is_due() {
    let mut listing = DirectoryEntry::with_policy(
        "/root".to_string(),
        None,
        Ok(vec![file("a")]),
        0,
        Sorter::DirsFirst,
        1000,
    )
    .unwrap();
    assert_eq!(listing.update(Ok(vec![file("b")]), 999), Ok(()));
    assert_eq!(names(&listing), vec!["a"]);
    assert_eq!(listing.last_update(), 0);
    assert_eq!(listing.update(Err(FilesystemError::NotFound), 999), Ok(()));
    assert_eq!(listing.update(Ok(vec![file("b")]), 1000), Ok(()));
    assert_eq!(names(&listing), vec!["b"]);
    assert_eq!(listing.last_update(), 1000);
}

#[test]
fn position_finds_the_first_entry_with_the_path() {
    let listing = root(vec![file("a.txt"), dir("Sub"), file("z.txt")], 0);
    assert_eq!(listing.position(&"/root/Sub".to_string()), Some(0));
    assert_eq!(listing.position(&"/root/z.txt".to_string()), Some(2));
    assert_eq!(listing.position(&"/root/none".to_string()), None);
}
