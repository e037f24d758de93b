//! Tabs over terminal panes: an ordered collection of tabs with one active
//! index, and the session that turns key chords and geometry changes into
//! changes of that collection.

pub mod app;
pub mod pane;
pub mod profiles;
pub mod tabs;
pub mod ui;
