//! The navigation engine of a terminal file browser.
//!
//! The engine keeps the listing of the directory on display and of its
//! parent, a cursor over the listing, the history of the directories that
//! were entered and left, the marks set in each directory, and a modal state
//! machine that guards deletions and renames. It never touches the
//! filesystem or the terminal: it says what is to be read, deleted, renamed
//! or shown, and takes the outcome as plain values.

pub mod app;
pub mod directory_entry;
pub mod entry;
pub mod handler;
pub mod input;
pub mod model;
pub mod selection;
pub mod sorter;
pub mod text;
pub mod ui;
