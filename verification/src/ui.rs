//! What the panes show: the decisions behind the painting, on plain values.
//! The painting itself is the caller's part.

use vstd::prelude::*;
use vstd::string::{StrSliceExecFns, StringExecFns};

use crate::app::App;
use crate::model::AppModel;
use crate::entry::{EntryKind, EntryModel, FilesystemError, PathEntry};
use crate::selection::marked_anywhere;
use crate::text::push_char;

verus! {

/// The colours that the browser paints with.
#[derive(Clone, Copy, Debug, PartialEq, Eq, Structural)]
pub enum Color {
    Reset,
    Black,
    White,
    Cyan,
    Yellow,
    LightMagenta,
}

/// The pane that a line is painted in.
#[derive(Clone, Copy, Debug, PartialEq, Eq, Structural)]
pub enum PaneContext {
    Parent,
    Focus,
    Preview,
}

/// A line of a pane: its text and its colours.
#[derive(Debug, PartialEq, Eq)]
pub struct Line {
    pub text: String,
    pub fg: Color,
    pub bg: Color,
}

/// The mathematical value of a [`Line`].
pub struct LineModel {
    pub text: Seq<char>,
    pub fg: Color,
    pub bg: Color,
}

impl View for Line {
    type V = LineModel;

    open spec fn view(&self) -> LineModel {
        LineModel { text: self.text@, fg: self.fg, bg: self.bg }
    }
}

/// What the preview pane shows for the entry under the cursor.
#[derive(Clone, Copy, Debug, PartialEq, Eq, Structural)]
pub enum Preview {
    /// There is no cursor.
    Nothing,
    /// The children of the directory.
    Directory,
    /// The text of the first page of the document.
    Pdf,
    /// The text of the file.
    Text,
    /// The entry is neither a directory nor a regular file.
    Unknown,
}

/// The first line of the focus pane that is on screen, for a cursor at
/// `idx` in a pane `height` lines high that holds `lines` lines: the cursor
/// stays in the middle of the pane until the listing ends.
pub open spec fn scroll_position_of(idx: nat, height: nat, lines: nat) -> nat {
    let middle = height / 2;
    if lines <= height {
        0
    } else if idx >= lines - middle {
        (lines - height) as nat
    } else if idx >= middle {
        (idx - middle) as nat
    } else {
        0
    }
}

/// The first line of the focus pane that is on screen; see
/// [`scroll_position_of`]. Without a cursor it is the first line.
pub fn scroll_position(idx: Option<usize>, height: usize, lines: usize) -> (r: usize)
    ensures
        r == match idx {
            Some(i) => scroll_position_of(i as nat, height as nat, lines as nat),
            None => 0,
        },
{
    match idx {
        Some(idx) => {
            if lines <= height {
                0
            } else {
                let middle = height / 2;
                if idx >= lines - middle {
                    lines - height
                } else if idx >= middle {
                    idx - middle
                } else {
                    0
                }
            }
        },
        None => 0,
    }
}

/// The text `text` with blanks behind it up to `width` characters; a text
/// that is longer stays as it is.
pub open spec fn padded(text: Seq<char>, width: nat) -> Seq<char> {
    if text.len() < width {
        text + Seq::new((width - text.len()) as nat, |i: int| ' ')
    } else {
        text
    }
}

/// Pads `text` with blanks up to `width` characters.
pub fn pad(text: String, width: usize) -> (r: String)
    ensures
        r@ == padded(text@, width as nat),
{
    let len = text.as_str().unicode_len();
    let mut r = text;
    let mut n = len;
    while n < width
        invariant
            len == text@.len(),
            len <= n,
            n <= width || n == len,
            r@ == text@ + Seq::new((n - len) as nat, |i: int| ' '),
        decreases width - n,
    {
        push_char(&mut r, ' ');
        n += 1;
    }
    r
}

/// Whether a file of this name counts as a PDF document: the name ends in
/// a dot and the letters p, d, f, of either case, and has more before the dot.
pub open spec fn is_pdf_name(name: Seq<char>) -> bool {
    let n = name.len();
    &&& n >= 5
    &&& name[n - 4] == '.'
    &&& (name[n - 3] == 'p' || name[n - 3] == 'P')
    &&& (name[n - 2] == 'd' || name[n - 2] == 'D')
    &&& (name[n - 1] == 'f' || name[n - 1] == 'F')
}

/// Whether a file of this name counts as a PDF document; see [`is_pdf_name`].
pub fn has_pdf_extension(name: &str) -> (r: bool)
    ensures
        r == is_pdf_name(name@),
{
    let n = name.unicode_len();
    if n < 5 {
        return false;
    }
    let tail = name.substring_char(n - 4, n);
    let dot = tail.get_char(0);
    let p = tail.get_char(1);
    let d = tail.get_char(2);
    let f = tail.get_char(3);
    dot == '.' && (p == 'p' || p == 'P') && (d == 'd' || d == 'D') && (f == 'f' || f == 'F')
}

/// What the preview pane shows for what the cursor is on.
pub open spec fn preview_for(cursor: Option<EntryModel>) -> Preview {
    match cursor {
        Some(entry) => match entry.kind {
            EntryKind::Directory => Preview::Directory,
            EntryKind::File => if is_pdf_name(entry.name) {
                Preview::Pdf
            } else {
                Preview::Text
            },
            EntryKind::Other => Preview::Unknown,
        },
        None => Preview::Nothing,
    }
}

/// What the preview pane shows for the entry under the cursor.
pub fn preview_of(app: &App) -> (r: Preview)
    ensures
        r == preview_for(
            match app@.current() {
                Some(c) => Some(c.entry),
                None => None,
            },
        ),
{
    match app.current() {
        Some(c) => match c.entry.kind {
            EntryKind::Directory => Preview::Directory,
            EntryKind::File => if has_pdf_extension(c.entry.name.as_str()) {
                Preview::Pdf
            } else {
                Preview::Text
            },
            EntryKind::Other => Preview::Unknown,
        },
        None => Preview::Nothing,
    }
}

/// What the preview pane says of a directory that could not be read.
pub fn listing_error_text(error: FilesystemError) -> (r: &'static str)
    ensures
        r@ == (if error == FilesystemError::PermissionDenied {
            "Permission denied!"@
        } else {
            "Unknown error"@
        }),
{
    match error {
        FilesystemError::PermissionDenied => "Permission denied!",
        _ => "Unknown error",
    }
}

/// Whether the line of `entry` is the highlighted one of its pane: in the
/// focus pane the entry under the cursor, in the parent pane the focus
/// directory, in the preview pane the directory on top of the forward stack.
pub open spec fn is_highlighted(app: AppModel, entry: EntryModel, ctx: PaneContext) -> bool {
    match ctx {
        PaneContext::Focus => app.current() is Some && app.current()->Some_0.entry.path
            == entry.path,
        PaneContext::Parent => app.focus_dir.path == entry.path,
        PaneContext::Preview => app.forward_stack.len() > 0 && app.forward_stack.last().path
            == entry.path,
    }
}

/// The line that shows `entry` in a pane `width` characters wide.
///
/// The text is the name, behind two blanks if the entry is marked, padded
/// to the width. The colour is that of the kind of the entry: light magenta
/// for a directory, cyan for a link, white for all else; a marked entry is
/// yellow in the focus pane. The highlighted line has its colour for
/// background and is written in black.
pub open spec fn line_for(
    app: AppModel,
    entry: EntryModel,
    is_symlink: bool,
    width: nat,
    ctx: PaneContext,
) -> LineModel {
    let marked = marked_anywhere(app.selections, entry.path);
    let colour = if marked && ctx == PaneContext::Focus {
        Color::Yellow
    } else if entry.kind == EntryKind::Directory {
        Color::LightMagenta
    } else if is_symlink {
        Color::Cyan
    } else {
        Color::White
    };
    let label = if marked {
        "  "@ + entry.name
    } else {
        entry.name
    };
    if is_highlighted(app, entry, ctx) {
        LineModel { text: padded(label, width), fg: Color::Black, bg: colour }
    } else {
        LineModel { text: padded(label, width), fg: colour, bg: Color::Reset }
    }
}

/// Whether the line of `entry` is the highlighted one of its pane.
fn highlighted(app: &App, entry: &PathEntry, ctx: PaneContext) -> (r: bool)
    ensures
        r == is_highlighted(app@, entry@, ctx),
{
    match ctx {
        PaneContext::Focus => match app.current() {
            Some(c) => c.entry.path == entry.path,
            None => false,
        },
        PaneContext::Parent => *app.focus_dir.path() == entry.path,
        PaneContext::Preview => {
            let n = app.forward_stack.len();
            n > 0 && app.forward_stack[n - 1].path == entry.path
        },
    }
}

/// Makes the line that shows `entry`; see [`line_for`].
pub fn format_line(
    app: &App,
    entry: &PathEntry,
    is_symlink: bool,
    width: usize,
    ctx: PaneContext,
) -> (r: Line)
    ensures
        r@ == line_for(app@, entry@, is_symlink, width as nat, ctx),
{
    let mut fg_color = Color::White;
    let mut bg_color = Color::Reset;
    let mut basename = String::new();
    if entry.is_dir() {
        fg_color = Color::LightMagenta;
    } else if is_symlink {
        fg_color = Color::Cyan;
    }
    let marked = app.selections.is_marked(&entry.path);
    if marked {
        if ctx == PaneContext::Focus {
            fg_color = Color::Yellow;
        }
        basename.append("  ");
    }
    basename.append(entry.name.as_str());
    if highlighted(app, entry, ctx) {
        bg_color = fg_color;
        fg_color = Color::Black;
    }
    assert(basename@ =~= if marked {
        "  "@ + entry@.name
    } else {
        entry@.name
    });
    Line { text: pad(basename, width), fg: fg_color, bg: bg_color }
}

} // verus!
