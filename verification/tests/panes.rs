use dirnav::app::{App, HistoryEntry};
use dirnav::directory_entry::DirectoryEntry;
use dirnav::entry::{EntryKind, FilesystemError, PathEntry};
use dirnav::ui::{
    format_line, has_pdf_extension, listing_error_text, pad, preview_of, scroll_position, Color,
    Line, PaneContext, Preview,
};

fn child(name: &str, kind: EntryKind) -> PathEntry {
    PathEntry::new(format!("/root/{}", name), name.to_string(), kind)
}

fn app_with(children: Vec<PathEntry>) -> App {
    let focus =
        DirectoryEntry::new("/root".to_string(), Some("/".to_string()), Ok(children), 0).unwrap();
    App::new(focus, None, Vec::new())
}

fn app() -> App {
    app_with(vec![
        child("Sub", EntryKind::Directory),
        child("a.txt", EntryKind::File),
        child("paper.PDF", EntryKind::File),
        child("socket", EntryKind::Other),
    ])
}

fn line(text: &str, fg: Color, bg: Color) -> Line {
    Line { text: text.to_string(), fg, bg }
}

#[test]
fn scroll_position_keeps_the_cursor_in_the_middle() {
    // Everything fits: no scrolling.
    assert_eq!(scroll_position(Some(5), 10, 10), 0);
    assert_eq!(scroll_position(Some(3), 10, 4), 0);
    // 100 lines in a pane of 10: the middle is 5.
    assert_eq!(scroll_position(Some(0), 10, 100), 0);
    assert_eq!(scroll_position(Some(4), 10, 100), 0);
    assert_eq!(scroll_position(Some(5), 10, 100), 0);
    assert_eq!(scroll_position(Some(6), 10, 100), 1);
    assert_eq!(scroll_position(Some(50), 10, 100), 45);
    assert_eq!(scroll_position(Some(94), 10, 100), 89);
    assert_eq!(scroll_position(Some(95), 10, 100), 90);
    assert_eq!(scroll_position(Some(99), 10, 100), 90);
    assert_eq!(scroll_position(Some(500), 10, 100), 90);
    assert_eq!(scroll_position(None, 10, 100), 0);
    // A pane without height.
    assert_eq!(scroll_position(Some(3), 0, 5), 3);
    assert_eq!(scroll_position(Some(5), 0, 5), 5);
    assert_eq!(scroll_position(Some(7), 1, 9), 7);
}

#[test]
fn pad_fills_up_to_the_width() {
    assert_eq!(pad("ab".to_string(), 5), "ab   ");
    assert_eq!(pad("abcde".to_string(), 5), "abcde");
    assert_eq!(pad("abcdef".to_string(), 5), "abcdef");
    assert_eq!(pad(String::new(), 0), "");
    assert_eq!(pad("日本".to_string(), 4), "日本  ");
}

#[test]
fn pdf_names() {
    assert!(has_pdf_extension("a.pdf"));
    assert!(has_pdf_extension("paper.PDF"));
    assert!(has_pdf_extension("x.y.Pdf"));
    assert!(has_pdf_extension("日本.pdf"));
    assert!(!has_pdf_extension(".pdf"));
    assert!(!has_pdf_extension("pdf"));
    assert!(!has_pdf_extension("a.pdfx"));
    assert!(!has_pdf_extension("a.pd"));
    assert!(!has_pdf_extension("apdf"));
    assert!(!has_pdf_extension(""));
    assert!(!has_pdf_extension("a.txt"));
}

#[test]
fn preview_follows_the_kind_of_the_entry() {
    let mut app = app();
    assert_eq!(preview_of(&app), Preview::Directory);
    app.move_down();
    assert_eq!(preview_of(&app), Preview::Text);
    app.move_down();
    assert_eq!(preview_of(&app), Preview::Pdf);
    app.move_down();
    assert_eq!(preview_of(&app), Preview::Unknown);
    assert_eq!(preview_of(&app_with(Vec::new())), Preview::Nothing);
}

#[test]
fn listing_errors_have_their_text() {
    assert_eq!(listing_error_text(FilesystemError::PermissionDenied), "Permission denied!");
    assert_eq!(listing_error_text(FilesystemError::NotFound), "Unknown error");
    assert_eq!(listing_error_text(FilesystemError::NotADirectory), "Unknown error");
    assert_eq!(listing_error_text(FilesystemError::Other), "Unknown error");
}

#[test]
fn lines_are_coloured_by_kind() {
    let mut app = app();
    app.move_down();
    let dir = child("Sub", EntryKind::Directory);
    let file = child("b.txt", EntryKind::File);
    assert_eq!(
        format_line(&app, &dir, false, 6, PaneContext::Focus),
        line("Sub   ", Color::LightMagenta, Color::Reset)
    );
    assert_eq!(
        format_line(&app, &dir, true, 2, PaneContext::Focus),
        line("Sub", Color::LightMagenta, Color::Reset)
    );
    assert_eq!(
        format_line(&app, &file, false, 7, PaneContext::Focus),
        line("b.txt  ", Color::White, Color::Reset)
    );
    assert_eq!(
        format_line(&app, &file, true, 0, PaneContext::Preview),
        line("b.txt", Color::Cyan, Color::Reset)
    );
}

#[test]
fn line_under_the_cursor_is_highlighted_in_the_focus_pane() {
    let mut app = app();
    app.move_down();
    let a = child("a.txt", EntryKind::File);
    assert_eq!(
        format_line(&app, &a, false, 6, PaneContext::Focus),
        line("a.txt ", Color::Black, Color::White)
    );
    assert_eq!(
        format_line(&app, &a, false, 6, PaneContext::Parent),
        line("a.txt ", Color::White, Color::Reset)
    );
    assert_eq!(
        format_line(&app, &a, false, 6, PaneContext::Preview),
        line("a.txt ", Color::White, Color::Reset)
    );
}

#[test]
fn focus_directory_is_highlighted_in_the_parent_pane() {
    let app = app();
    let root = PathEntry::new("/root".to_string(), "root".to_string(), EntryKind::Directory);
    assert_eq!(
        format_line(&app, &root, false, 4, PaneContext::Parent),
        line("root", Color::Black, Color::LightMagenta)
    );
    assert_eq!(
        format_line(&app, &root, false, 4, PaneContext::Focus),
        line("root", Color::LightMagenta, Color::Reset)
    );
}

#[test]
fn top_of_the_forward_stack_is_highlighted_in_the_preview_pane() {
    let mut app = app();
    app.forward_stack.push(HistoryEntry::new("/root/Sub".to_string(), 0));
    let sub = child("Sub", EntryKind::Directory);
    assert_eq!(
        format_line(&app, &sub, false, 3, PaneContext::Preview),
        line("Sub", Color::Black, Color::LightMagenta)
    );
}

#[test]
fn marked_lines_are_set_off_and_yellow_in_the_focus_pane() {
    let mut app = app();
    app.move_down();
    app.toggle_selection_on_cursor();
    app.move_down();
    let a = child("a.txt", EntryKind::File);
    assert_eq!(
        format_line(&app, &a, false, 9, PaneContext::Focus),
        line("  a.txt  ", Color::Yellow, Color::Reset)
    );
    assert_eq!(
        format_line(&app, &a, false, 2, PaneContext::Preview),
        line("  a.txt", Color::White, Color::Reset)
    );
    app.move_up();
    assert_eq!(
        format_line(&app, &a, false, 0, PaneContext::Focus),
        line("  a.txt", Color::Black, Color::Yellow)
    );
}
