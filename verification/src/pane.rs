//! The boundary to the pane engine.
//!
//! A pane engine is a `cockpit::PaneManager`. The library never looks inside
//! one; what it needs to say about an engine is said over three ghost names:
//! the ids of the panes that it runs, the id of the pane that it focuses, and
//! the number of panes that it takes.
//! The functions marked `external_body` below are believed, not proved.

use vstd::prelude::*;
use cockpit::{ManagerConfig, PaneHandle, PaneId, PaneManager, PaneSize, PaneState};

verus! {

/// `cockpit::PaneManager`, carried through as it is.
#[verifier::external_type_specification]
#[verifier::external_body]
pub struct ExPaneManager(PaneManager);

/// `cockpit::PaneId`, with the one public number that cockpit gives it.
#[verifier::external_type_specification]
pub struct ExPaneId(PaneId);

/// `cockpit::PaneHandle`, carried through as it is.
#[verifier::external_type_specification]
#[verifier::external_body]
pub struct ExPaneHandle(PaneHandle);

/// The ids of the panes that an engine runs.
pub uninterp spec fn pane_ids(manager: PaneManager) -> Set<u64>;

/// The id of the pane that an engine focuses, if any.
pub uninterp spec fn focused_pane(manager: PaneManager) -> Option<u64>;

/// The number of panes that an engine takes at most.
pub uninterp spec fn pane_limit(manager: PaneManager) -> nat;

/// What a pane's process is doing, as the engine reports it.
#[derive(Debug, Clone, PartialEq, Eq)]
pub enum PaneStatus {
    Running,
    Exited { code: i32 },
    Crashed { reason: Option<String> },
    Paused,
}

/// The focus of an engine after it was asked to focus `pane`: that pane where
/// the engine runs it, the earlier focus where it does not.
pub open spec fn focus_after(before: PaneManager, pane: u64) -> Option<u64> {
    if pane_ids(before).contains(pane) {
        Some(pane)
    } else {
        focused_pane(before)
    }
}

/// `cockpit::PaneManager::with_config`, with every setting but the pane limit
/// left at its default. The new engine runs no pane and focuses none; it
/// takes as many panes as asked for, but never more than four.
#[verifier::external_body]
pub(crate) fn manager_with_limit(max_panes: usize) -> (manager: PaneManager)
    ensures
        pane_ids(manager) == Set::<u64>::empty(),
        focused_pane(manager) is None,
        pane_limit(manager) == if max_panes < 4 {
            max_panes as nat
        } else {
            4
        },
{
    PaneManager::with_config(ManagerConfig { max_panes, ..Default::default() })
}

/// `cockpit::PaneManager::set_focus`: the focus moves to the pane if the
/// engine runs it and stays where it was if not; the panes and the limit
/// stay as they are.
#[verifier::external_body]
pub(crate) fn focus_pane(manager: &mut PaneManager, pane_id: PaneId)
    ensures
        pane_ids(*final(manager)) == pane_ids(*old(manager)),
        pane_limit(*final(manager)) == pane_limit(*old(manager)),
        focused_pane(*final(manager)) == focus_after(*old(manager), pane_id.0),
{
    manager.set_focus(pane_id);
}

/// `cockpit::PaneManager::resize_pane` with a `cockpit::PaneSize` of the given
/// rows and columns. Whether the terminal took the size is not reported; the
/// engine's panes, limit and focus stay as they are.
#[verifier::external_body]
pub(crate) fn resize_pane(manager: &mut PaneManager, pane_id: PaneId, rows: u16, cols: u16)
    ensures
        pane_ids(*final(manager)) == pane_ids(*old(manager)),
        pane_limit(*final(manager)) == pane_limit(*old(manager)),
        focused_pane(*final(manager)) == focused_pane(*old(manager)),
{
    let _ = manager.resize_pane(pane_id, PaneSize::new(rows, cols));
}

/// `cockpit::PaneManager::get_pane`: the handle of the pane, exactly when the
/// engine runs a pane of that id.
#[verifier::external_body]
pub(crate) fn pane_handle(manager: &PaneManager, pane_id: PaneId) -> (handle: Option<&PaneHandle>)
    ensures
        handle is Some <==> pane_ids(*manager).contains(pane_id.0),
{
    manager.get_pane(pane_id)
}

/// `cockpit::PaneHandle::state`, read at the moment of the call. The status
/// follows the pane's process, so nothing is promised of it.
#[verifier::external_body]
pub(crate) fn pane_status(handle: &PaneHandle) -> (status: PaneStatus) {
    match handle.state() {
        PaneState::Running => PaneStatus::Running,
        PaneState::Exited { code } => PaneStatus::Exited { code },
        PaneState::Crashed { error, .. } => PaneStatus::Crashed { reason: error },
        PaneState::Paused => PaneStatus::Paused,
    }
}

/// An engine for one tab: it takes a single pane, and starts without one.
pub fn new_manager() -> (manager: PaneManager)
    ensures
        pane_ids(manager) == Set::<u64>::empty(),
        focused_pane(manager) is None,
        pane_limit(manager) == 1,
{
    manager_with_limit(1)
}

} // verus!
