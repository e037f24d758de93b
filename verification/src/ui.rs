//! The screen: where the tab bar and the pane go, what the tab bar shows,
//! one label per tab, and which label is selected.

use vstd::prelude::*;
use vstd::string::StringExecFns;
use ratatui::layout::{Constraint, Direction, Layout, Rect};
use crate::app::{App, Area};
use crate::pane::{pane_handle, pane_ids, pane_status, PaneStatus};
use crate::tabs::Tab;

verus! {

/// The rows that the tab bar takes at the top of the screen.
pub const TAB_BAR_ROWS: u16 = 3;

/// The screen in two strips: the tab bar, and under it the active pane.
#[derive(Clone, Copy, Debug, PartialEq, Eq)]
pub struct UiLayout {
    pub tab_area: Area,
    pub pane_area: Area,
}

/// `ratatui::layout::Layout::split` of a rectangle, for a vertical layout of
/// two rows: one of the length `head`, one of at least `rest`. It gives two
/// rectangles, each as wide as the one that was split and starting in the
/// same column. Where each starts and how high it is comes from ratatui's
/// constraint solver, and nothing is said of it.
#[verifier::external_body]
pub(crate) fn split_rows(area: Area, head: u16, rest: u16) -> (rows: Vec<Area>)
    ensures
        rows@.len() == 2,
        forall|i: int|
            0 <= i < 2 ==> (#[trigger] rows@[i]).x == area.x && rows@[i].width == area.width,
{
    let rect = Rect { x: area.x, y: area.y, width: area.width, height: area.height };
    Layout::default()
        .direction(Direction::Vertical)
        .constraints([Constraint::Length(head), Constraint::Min(rest)])
        .split(rect)
        .iter()
        .map(|row| Area { x: row.x, y: row.y, width: row.width, height: row.height })
        .collect()
}

/// Splits the screen into the tab bar, `TAB_BAR_ROWS` rows at the top where
/// the screen has them, and the pane strip, which gets what is left. Both
/// strips span the width of the screen.
pub fn split(area: Area) -> (layout: UiLayout)
    ensures
        layout.tab_area.x == area.x,
        layout.tab_area.width == area.width,
        layout.pane_area.x == area.x,
        layout.pane_area.width == area.width,
{
    let rows = split_rows(area, TAB_BAR_ROWS, 0);
    UiLayout { tab_area: rows[0], pane_area: rows[1] }
}

/// The word that a label shows for a pane's status.
pub open spec fn state_text(status: PaneStatus) -> Seq<char> {
    match status {
        PaneStatus::Running => "running"@,
        PaneStatus::Exited { .. } => "exited"@,
        PaneStatus::Crashed { .. } => "crashed"@,
        PaneStatus::Paused => "paused"@,
    }
}

/// The status that a label goes by: the pane's own, and crashed where the
/// pane's status cannot be had.
pub open spec fn shown_status(status: Option<PaneStatus>) -> PaneStatus {
    match status {
        Some(status) => status,
        None => PaneStatus::Crashed { reason: None },
    }
}

/// A tab's label: the title and, in square brackets, the status word, with a
/// blank on either side.
pub open spec fn label_text(title: Seq<char>, status: PaneStatus) -> Seq<char> {
    " "@ + title + " ["@ + state_text(status) + "] "@
}

/// The title over the pane strip: the active tab's title with a blank on
/// either side.
pub open spec fn pane_title_text(title: Seq<char>) -> Seq<char> {
    " "@ + title + " "@
}

pub fn state_label(status: &PaneStatus) -> (word: &'static str)
    ensures
        word@ == state_text(*status),
{
    match status {
        PaneStatus::Running => "running",
        PaneStatus::Exited { .. } => "exited",
        PaneStatus::Crashed { .. } => "crashed",
        PaneStatus::Paused => "paused",
    }
}

pub fn tab_label(title: &str, status: Option<PaneStatus>) -> (label: String)
    ensures
        label@ == label_text(title@, shown_status(status)),
{
    let status = match status {
        Some(status) => status,
        None => PaneStatus::Crashed { reason: None },
    };
    let mut label = String::from_str(" ");
    label.append(title);
    label.append(" [");
    label.append(state_label(&status));
    label.append("] ");
    label
}

pub fn pane_title(title: &str) -> (shown: String)
    ensures
        shown@ == pane_title_text(title@),
{
    let mut shown = String::from_str(" ");
    shown.append(title);
    shown.append(" ");
    shown
}

/// The status of a tab's pane as its engine reports it now, or `None` where
/// the engine does not run the pane.
pub fn tab_status(tab: &Tab) -> (status: Option<PaneStatus>)
    ensures
        status is Some <==> pane_ids(tab.manager).contains(tab.pane_id.0),
{
    match pane_handle(&tab.manager, tab.pane_id) {
        Some(handle) => Some(pane_status(handle)),
        None => None,
    }
}

/// `label` is the label of `tab` under some status of its pane; under none,
/// which shows as crashed, exactly where the tab's engine does not run the
/// pane.
pub open spec fn labels_tab(label: Seq<char>, tab: Tab) -> bool {
    exists|status: Option<PaneStatus>|
        #![trigger shown_status(status)]
        label == label_text(tab.title@, shown_status(status)) && (status is Some <==> pane_ids(
            tab.manager,
        ).contains(tab.pane_id.0))
}

/// One label per tab, in the tabs' order, each under the status that its
/// pane has when it is asked.
pub fn tab_titles(app: &App) -> (labels: Vec<String>)
    ensures
        labels@.len() == app@.tabs.tabs.len(),
        forall|i: int|
            0 <= i < labels@.len() ==> labels_tab(#[trigger] labels@[i]@, app@.tabs.tabs[i]),
{
    let tabs = app.tabs().tabs();
    let mut labels: Vec<String> = Vec::new();
    let mut index: usize = 0;
    while index < tabs.len()
        invariant
            index <= tabs@.len(),
            tabs@ == app@.tabs.tabs,
            labels@.len() == index,
            forall|i: int| 0 <= i < index ==> labels_tab(#[trigger] labels@[i]@, tabs@[i]),
        decreases tabs@.len() - index,
    {
        let tab = &tabs[index];
        let status = tab_status(tab);
        let label = tab_label(tab.title.as_str(), status);
        labels.push(label);
        index = index + 1;
    }
    labels
}

/// The label that the tab bar highlights: the active tab's, and none in a
/// session without tabs.
pub fn selected_tab(app: &App) -> (selected: Option<usize>)
    ensures
        app@.tabs.tabs.len() == 0 ==> selected is None,
        app@.tabs.tabs.len() > 0 ==> selected == Some(app@.tabs.active as usize),
{
    if app.tabs().is_empty() {
        None
    } else {
        Some(app.tabs().active())
    }
}

} // verus!
