use dirnav::app::{App, AppCursor, Deletion, HistoryEntry, PARENT_FILL};
use dirnav::directory_entry::DirectoryEntry;
use dirnav::entry::{EntryKind, FilesystemError, PathEntry};

fn child(dir: &str, name: &str, kind: EntryKind) -> PathEntry {
    PathEntry::new(format!("{}/{}", dir, name), name.to_string(), kind)
}

fn listing(path: &str, parent: Option<&str>, children: Vec<PathEntry>) -> DirectoryEntry {
    DirectoryEntry::new(path.to_string(), parent.map(|p| p.to_string()), Ok(children), 0).unwrap()
}

/// `/home/user` with `docs/`, `src/`, `a.txt`, `b.txt`.
fn user_dir() -> DirectoryEntry {
    listing(
        "/home/user",
        Some("/home"),
        vec![
            child("/home/user", "a.txt", EntryKind::File),
            child("/home/user", "src", EntryKind::Directory),
            child("/home/user", "b.txt", EntryKind::File),
            child("/home/user", "docs", EntryKind::Directory),
        ],
    )
}

fn home_dir() -> DirectoryEntry {
    listing("/home", Some("/"), vec![child("/home", "user", EntryKind::Directory)])
}

fn src_dir() -> DirectoryEntry {
    listing(
        "/home/user/src",
        Some("/home/user"),
        vec![
            child("/home/user/src", "lib.rs", EntryKind::File),
            child("/home/user/src", "main.rs", EntryKind::File),
            child("/home/user/src", "bin", EntryKind::Directory),
        ],
    )
}

fn start() -> App {
    App::new(
        user_dir(),
        Some(home_dir()),
        vec![HistoryEntry::new("/".to_string(), 0), HistoryEntry::new("/home".to_string(), 0)],
    )
}

fn idx(app: &App) -> Option<usize> {
    app.app_cursor.as_ref().map(|c| c.idx)
}

fn cursor_name(app: &App) -> Option<String> {
    app.app_cursor.as_ref().map(|c| c.entry.name.clone())
}

#[test]
fn app_cursor_new_keeps_its_parts() {
    let entry = child("/root", "a", EntryKind::File);
    let cursor = AppCursor::new(child("/root", "a", EntryKind::File), 3);
    assert_eq!(cursor.entry, entry);
    assert_eq!(cursor.idx, 3);
}

#[test]
fn new_app_starts_on_the_first_entry() {
    let app = start();
    assert!(app.running);
    assert!(app.wrap);
    assert_eq!(app.message, None);
    assert_eq!(app.input, None);
    assert_eq!(app.rename_target, None);
    assert_eq!(app.parent_constraint, PARENT_FILL);
    assert!(!app.parent_needs_reset);
    assert_eq!(idx(&app), Some(0));
    assert_eq!(cursor_name(&app), Some("docs".to_string()));
    assert_eq!(app.path_stack.len(), 2);
    assert!(app.forward_stack.is_empty());
    assert!(app.current_selections().is_empty());
    assert_eq!(app.focus_dir.path(), "/home/user");
    assert_eq!(app.parent_dir.as_ref().unwrap().path(), "/home");
}

#[test]
fn new_app_in_an_empty_directory_has_no_cursor() {
    let mut app = App::new(listing("/empty", Some("/"), Vec::new()), None, Vec::new());
    assert_eq!(app.app_cursor, None);
    app.move_up();
    assert_eq!(app.app_cursor, None);
    app.move_down();
    assert_eq!(app.app_cursor, None);
    assert_eq!(app.current(), None);
    assert_eq!(app.delete_selection_or_cursor(), Deletion::Nothing);
}

#[test]
fn move_down_and_up_step_by_one() {
    let mut app = start();
    app.move_down();
    assert_eq!(idx(&app), Some(1));
    assert_eq!(cursor_name(&app), Some("src".to_string()));
    app.move_down();
    assert_eq!(idx(&app), Some(2));
    assert_eq!(cursor_name(&app), Some("a.txt".to_string()));
    app.move_up();
    assert_eq!(idx(&app), Some(1));
    assert_eq!(cursor_name(&app), Some("src".to_string()));
}

#[test]
fn cursor_wraps_at_both_ends() {
    let mut app = start();
    app.move_up();
    assert_eq!(idx(&app), Some(3));
    assert_eq!(cursor_name(&app), Some("b.txt".to_string()));
    app.move_down();
    assert_eq!(idx(&app), Some(0));
    assert_eq!(cursor_name(&app), Some("docs".to_string()));
}

#[test]
fn cursor_stays_at_both_ends_without_wrap() {
    let mut app = start();
    app.wrap = false;
    app.move_up();
    assert_eq!(idx(&app), Some(0));
    assert_eq!(cursor_name(&app), Some("docs".to_string()));
    app.move_down();
    app.move_down();
    app.move_down();
    assert_eq!(idx(&app), Some(3));
    app.move_down();
    assert_eq!(idx(&app), Some(3));
    assert_eq!(cursor_name(&app), Some("b.txt".to_string()));
}

#[test]
fn cursor_in_a_listing_of_one_entry() {
    let mut app = App::new(home_dir(), None, Vec::new());
    app.move_up();
    assert_eq!(idx(&app), Some(0));
    app.move_down();
    assert_eq!(idx(&app), Some(0));
    app.wrap = false;
    app.move_up();
    assert_eq!(idx(&app), Some(0));
    app.move_down();
    assert_eq!(idx(&app), Some(0));
}

#[test]
fn cursor_beyond_a_shrunken_listing_is_clamped() {
    let mut app = start();
    app.app_cursor = Some(AppCursor::new(child("/home/user", "gone", EntryKind::File), 9));
    assert_eq!(app.current().map(|c| c.idx), Some(3));
    app.move_up();
    assert_eq!(idx(&app), Some(3));
    assert_eq!(cursor_name(&app), Some("b.txt".to_string()));

    app.app_cursor = Some(AppCursor::new(child("/home/user", "gone", EntryKind::File), 9));
    app.move_down();
    assert_eq!(idx(&app), Some(0));

    app.wrap = false;
    app.app_cursor = Some(AppCursor::new(child("/home/user", "gone", EntryKind::File), 9));
    app.move_down();
    assert_eq!(idx(&app), Some(3));
}

#[test]
fn cursor_goes_away_when_the_listing_has_become_empty() {
    let mut app = start();
    app.tick(None, Some(Ok(Vec::new())), 10);
    assert_eq!(idx(&app), Some(0));
    assert_eq!(app.current(), None);
    app.move_down();
    assert_eq!(app.app_cursor, None);
}

#[test]
fn move_into_descends_and_records_the_step() {
    let mut app = start();
    app.move_down();
    app.move_into(Ok(src_dir()));
    assert_eq!(app.focus_dir.path(), "/home/user/src");
    assert_eq!(app.parent_dir.as_ref().unwrap().path(), "/home/user");
    assert_eq!(idx(&app), Some(0));
    assert_eq!(cursor_name(&app), Some("bin".to_string()));
    assert_eq!(app.path_stack.len(), 3);
    assert_eq!(app.path_stack[2], HistoryEntry::new("/home/user".to_string(), 1));
    assert!(app.forward_stack.is_empty());
}

#[test]
fn move_into_a_file_does_nothing() {
    let mut app = start();
    app.move_down();
    app.move_down();
    assert_eq!(cursor_name(&app), Some("a.txt".to_string()));
    app.move_into(Ok(listing("/home/user/a.txt", Some("/home/user"), Vec::new())));
    assert_eq!(app.focus_dir.path(), "/home/user");
    assert_eq!(idx(&app), Some(2));
    assert_eq!(app.path_stack.len(), 2);
}

#[test]
fn move_into_aborts_when_the_listing_failed() {
    let mut app = start();
    app.move_down();
    for e in [FilesystemError::NotFound, FilesystemError::PermissionDenied] {
        app.move_into(Err(e));
        assert_eq!(app.focus_dir.path(), "/home/user");
        assert_eq!(app.parent_dir.as_ref().unwrap().path(), "/home");
        assert_eq!(idx(&app), Some(1));
        assert_eq!(app.path_stack.len(), 2);
        assert!(app.forward_stack.is_empty());
    }
}

#[test]
fn move_into_refuses_the_listing_of_another_directory() {
    let mut app = start();
    app.move_down();
    app.move_into(Ok(listing("/home/user/docs", Some("/home/user"), Vec::new())));
    assert_eq!(app.focus_dir.path(), "/home/user");
    assert_eq!(idx(&app), Some(1));
    assert_eq!(app.path_stack.len(), 2);
}

#[test]
fn move_into_an_empty_directory_leaves_no_cursor() {
    let mut app = start();
    app.move_into(Ok(listing("/home/user/docs", Some("/home/user"), Vec::new())));
    assert_eq!(app.focus_dir.path(), "/home/user/docs");
    assert_eq!(app.app_cursor, None);
    app.move_back(Ok(user_dir()), Ok(Some(home_dir())));
    assert_eq!(app.focus_dir.path(), "/home/user");
    assert_eq!(idx(&app), Some(0));
    assert_eq!(app.forward_stack[0], HistoryEntry::new("/home/user/docs".to_string(), 0));
}

#[test]
fn move_back_restores_directory_and_cursor() {
    let mut app = start();
    app.move_down();
    app.move_into(Ok(src_dir()));
    app.move_down();
    app.move_back(Ok(user_dir()), Ok(Some(home_dir())));
    assert_eq!(app.focus_dir.path(), "/home/user");
    assert_eq!(app.parent_dir.as_ref().unwrap().path(), "/home");
    assert_eq!(idx(&app), Some(1));
    assert_eq!(cursor_name(&app), Some("src".to_string()));
    assert_eq!(app.path_stack.len(), 2);
    assert_eq!(app.forward_stack.len(), 1);
    assert_eq!(app.forward_stack[0], HistoryEntry::new("/home/user/src".to_string(), 1));
}

#[test]
fn move_into_again_restores_the_position_inside() {
    let mut app = start();
    app.move_down();
    app.move_into(Ok(src_dir()));
    app.move_down();
    app.move_down();
    assert_eq!(idx(&app), Some(2));
    app.move_back(Ok(user_dir()), Ok(Some(home_dir())));
    app.move_into(Ok(src_dir()));
    assert_eq!(app.focus_dir.path(), "/home/user/src");
    assert_eq!(idx(&app), Some(2));
    assert_eq!(cursor_name(&app), Some("main.rs".to_string()));
    assert!(app.forward_stack.is_empty());
}

#[test]
fn move_into_another_directory_starts_at_the_top() {
    let mut app = start();
    app.move_down();
    app.move_into(Ok(src_dir()));
    app.move_down();
    app.move_back(Ok(user_dir()), Ok(Some(home_dir())));
    app.move_up();
    assert_eq!(cursor_name(&app), Some("docs".to_string()));
    app.move_into(Ok(listing(
        "/home/user/docs",
        Some("/home/user"),
        vec![
            child("/home/user/docs", "x", EntryKind::File),
            child("/home/user/docs", "y", EntryKind::File),
        ],
    )));
    assert_eq!(app.focus_dir.path(), "/home/user/docs");
    assert_eq!(idx(&app), Some(0));
    assert!(app.forward_stack.is_empty());
}

#[test]
fn restored_position_is_clamped_to_a_shorter_listing() {
    let mut app = start();
    app.move_down();
    app.move_into(Ok(src_dir()));
    app.move_up();
    assert_eq!(idx(&app), Some(2));
    app.move_back(Ok(user_dir()), Ok(Some(home_dir())));
    let shorter = listing(
        "/home/user/src",
        Some("/home/user"),
        vec![child("/home/user/src", "lib.rs", EntryKind::File)],
    );
    app.move_into(Ok(shorter));
    assert_eq!(idx(&app), Some(0));
    assert_eq!(cursor_name(&app), Some("lib.rs".to_string()));
}

#[test]
fn move_back_with_an_empty_stack_does_nothing() {
    let mut app = App::new(user_dir(), Some(home_dir()), Vec::new());
    app.move_down();
    app.move_back(Ok(home_dir()), Ok(None));
    assert_eq!(app.focus_dir.path(), "/home/user");
    assert_eq!(idx(&app), Some(1));
    assert!(app.forward_stack.is_empty());
}

#[test]
fn move_back_aborts_when_a_listing_failed() {
    let mut app = start();
    app.move_down();
    app.move_back(Err(FilesystemError::NotFound), Ok(None));
    assert_eq!(app.focus_dir.path(), "/home/user");
    app.move_back(Ok(home_dir()), Err(FilesystemError::PermissionDenied));
    assert_eq!(app.focus_dir.path(), "/home/user");
    assert_eq!(app.parent_dir.as_ref().unwrap().path(), "/home");
    assert_eq!(idx(&app), Some(1));
    assert_eq!(app.path_stack.len(), 2);
    assert!(app.forward_stack.is_empty());
}

#[test]
fn move_back_refuses_listings_that_do_not_fit() {
    let mut app = start();
    // Not the directory on top of the stack.
    app.move_back(Ok(src_dir()), Ok(Some(user_dir())));
    assert_eq!(app.focus_dir.path(), "/home/user");
    // The parent is missing, or is another directory.
    app.move_back(Ok(home_dir()), Ok(None));
    assert_eq!(app.focus_dir.path(), "/home/user");
    app.move_back(Ok(home_dir()), Ok(Some(user_dir())));
    assert_eq!(app.focus_dir.path(), "/home/user");
    assert_eq!(app.path_stack.len(), 2);
}

#[test]
fn move_back_to_the_root_collapses_the_parent_pane() {
    let mut app = start();
    let root = listing("/", None, vec![child("", "home", EntryKind::Directory)]);
    app.move_back(Ok(home_dir()), Ok(Some(root)));
    assert_eq!(app.focus_dir.path(), "/home");
    assert_eq!(app.parent_constraint, PARENT_FILL);
    let root = listing("/", None, vec![child("", "home", EntryKind::Directory)]);
    app.move_back(Ok(root), Ok(None));
    assert_eq!(app.focus_dir.path(), "/");
    assert!(app.parent_dir.is_none());
    assert_eq!(app.parent_constraint, 0);
    assert!(app.parent_needs_reset);
    assert!(app.path_stack.is_empty());
    // The next descent gives the pane its share back.
    app.move_into(Ok(home_dir()));
    assert_eq!(app.focus_dir.path(), "/home");
    assert_eq!(app.parent_constraint, PARENT_FILL);
    assert_eq!(app.parent_dir.as_ref().unwrap().path(), "/");
}

#[test]
fn parent_constraint_can_be_set_and_reset() {
    let mut app = start();
    app.set_parent_constraint(5);
    assert_eq!(app.parent_constraint, 5);
    assert!(app.parent_needs_reset);
    app.reset_parent_constraint();
    assert_eq!(app.parent_constraint, PARENT_FILL);
}

#[test]
fn quit_stops_the_session() {
    let mut app = start();
    app.quit();
    assert!(!app.running);
}

#[test]
fn tick_refreshes_both_listings() {
    let mut app = start();
    app.tick(
        Some(Ok(vec![
            child("/home", "user", EntryKind::Directory),
            child("/home", "guest", EntryKind::Directory),
        ])),
        Some(Ok(vec![child("/home/user", "only", EntryKind::File)])),
        250,
    );
    assert_eq!(app.focus_dir.len(), 1);
    assert_eq!(app.focus_dir.last_update(), 250);
    assert_eq!(app.parent_dir.as_ref().unwrap().len(), 2);
    assert_eq!(app.parent_dir.as_ref().unwrap().get(0).unwrap().name, "guest");
    assert_eq!(app.parent_dir.as_ref().unwrap().last_update(), 250);
    // The cursor is left alone until it is next used.
    assert_eq!(idx(&app), Some(0));
    assert_eq!(cursor_name(&app), Some("docs".to_string()));
    assert_eq!(app.current().map(|c| c.entry.name), Some("only".to_string()));
}

#[test]
fn tick_keeps_a_listing_that_could_not_be_read() {
    let mut app = start();
    app.tick(
        Some(Err(FilesystemError::NotFound)),
        Some(Err(FilesystemError::PermissionDenied)),
        250,
    );
    assert_eq!(app.focus_dir.len(), 4);
    assert_eq!(app.focus_dir.last_update(), 0);
    assert_eq!(app.parent_dir.as_ref().unwrap().len(), 1);
    app.tick(None, None, 500);
    assert_eq!(app.focus_dir.len(), 4);
    assert_eq!(app.focus_dir.last_update(), 0);
}

#[test]
fn tick_without_a_parent() {
    let mut app = App::new(listing("/", None, Vec::new()), None, Vec::new());
    app.tick(
        Some(Ok(vec![child("", "x", EntryKind::File)])),
        Some(Ok(vec![child("", "y", EntryKind::File)])),
        9,
    );
    assert!(app.parent_dir.is_none());
    assert_eq!(app.focus_dir.len(), 1);
}
