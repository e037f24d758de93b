//! The tab collection: tabs in display order and the index of the active one.

use vstd::prelude::*;
use cockpit::{PaneId, PaneManager};
use crate::pane::{focus_after, focus_pane, focused_pane, pane_ids, pane_limit};

verus! {

/// A titled tab bound to the pane engine that runs its pane.
pub struct Tab {
    pub title: String,
    pub profile_id: Option<usize>,
    pub manager: PaneManager,
    pub pane_id: PaneId,
}

/// What identifies a tab, apart from the state of its engine.
pub struct TabView {
    pub title: Seq<char>,
    pub profile_id: Option<usize>,
    pub pane: u64,
}

impl View for Tab {
    type V = TabView;

    open spec fn view(&self) -> TabView {
        TabView { title: self.title@, profile_id: self.profile_id, pane: self.pane_id.0 }
    }
}

/// `tab` carries the given title and profile index over the given pane, and
/// its engine is `manager` after it was asked to focus that pane.
pub open spec fn tab_bound_to(
    tab: Tab,
    title: Seq<char>,
    profile_id: Option<usize>,
    manager: PaneManager,
    pane_id: PaneId,
) -> bool {
    &&& tab.title@ == title
    &&& tab.profile_id == profile_id
    &&& tab.pane_id == pane_id
    &&& pane_ids(tab.manager) == pane_ids(manager)
    &&& pane_limit(tab.manager) == pane_limit(manager)
    &&& focused_pane(tab.manager) == focus_after(manager, pane_id.0)
}

/// `after` is `before` with its engine asked to focus the tab's own pane:
/// the same tab over the same panes, focused on its pane where the engine
/// runs it.
pub open spec fn focused_on_own_pane(before: Tab, after: Tab) -> bool {
    tab_bound_to(after, before.title@, before.profile_id, before.manager, before.pane_id)
}

/// `after` is `before` but for what its engine did meanwhile: the same tab,
/// over the same panes, with the same focus.
pub open spec fn same_pane_state(before: Tab, after: Tab) -> bool {
    &&& after@ == before@
    &&& pane_ids(after.manager) == pane_ids(before.manager)
    &&& pane_limit(after.manager) == pane_limit(before.manager)
    &&& focused_pane(after.manager) == focused_pane(before.manager)
}

/// `after` holds the tabs of `before`, untouched but for the one at `active`,
/// whose engine was asked to focus the tab's pane. With no tab at `active`
/// the two are equal.
pub open spec fn focus_moved_to(before: Seq<Tab>, after: Seq<Tab>, active: nat) -> bool {
    &&& after.len() == before.len()
    &&& forall|i: int| 0 <= i < before.len() && i != active ==> after[i] == before[i]
    &&& active < before.len() ==> focused_on_own_pane(before[active as int], after[active as int])
}

/// The tab's engine focuses the tab's pane, if it runs that pane at all.
pub open spec fn focuses_own_pane(tab: Tab) -> bool {
    pane_ids(tab.manager).contains(tab.pane_id.0) ==> focused_pane(tab.manager) == Some(
        tab.pane_id.0,
    )
}

/// Binds a title and a profile index to a spawned pane and focuses the engine
/// on that pane.
pub fn new_tab(
    title: String,
    profile_id: Option<usize>,
    manager: PaneManager,
    pane_id: PaneId,
) -> (tab: Tab)
    ensures
        tab.title == title,
        tab_bound_to(tab, title@, profile_id, manager, pane_id),
        focuses_own_pane(tab),
{
    let mut manager = manager;
    focus_pane(&mut manager, pane_id);
    Tab { title, profile_id, manager, pane_id }
}

/// The index that `set_active` settles on: `index` pulled back into the
/// collection, and 0 for an empty one.
pub open spec fn clamp_index(len: nat, index: nat) -> nat {
    if len == 0 {
        0
    } else if index < len {
        index
    } else {
        (len - 1) as nat
    }
}

/// The active index after the tab at `index` has left a collection of `len`
/// tabs (`index < len`). A tab before the active one pulls the index down with
/// it; the active tab hands over to its successor, or to the new last tab
/// when it was last; a later tab changes nothing.
pub open spec fn active_after_remove(len: nat, active: nat, index: nat) -> nat {
    if len <= 1 {
        0
    } else if index < active {
        (active - 1) as nat
    } else if index == active && active + 1 >= len {
        (len - 2) as nat
    } else {
        active
    }
}

/// The active index one step to the right, wrapping to the first tab.
pub open spec fn next_index(len: nat, active: nat) -> nat {
    if len == 0 {
        active
    } else {
        (active + 1) % len
    }
}

/// The active index one step to the left, wrapping to the last tab.
pub open spec fn prev_index(len: nat, active: nat) -> nat {
    if len == 0 {
        active
    } else if active == 0 {
        (len - 1) as nat
    } else {
        (active - 1) as nat
    }
}

/// The tabs in display order, and which of them is active.
pub struct TabsState {
    tabs: Vec<Tab>,
    active: usize,
}

/// A tab collection as a value: the sequence of tabs and the active index.
pub struct TabsView {
    pub tabs: Seq<Tab>,
    pub active: nat,
}

impl TabsView {
    /// The active index names a tab, or the collection is empty and the index
    /// is 0.
    pub open spec fn wf(self) -> bool {
        if self.tabs.len() == 0 {
            self.active == 0
        } else {
            self.active < self.tabs.len()
        }
    }
}

impl View for TabsState {
    type V = TabsView;

    closed spec fn view(&self) -> TabsView {
        TabsView { tabs: self.tabs@, active: self.active as nat }
    }
}

impl TabsState {
    pub open spec fn wf(&self) -> bool {
        self@.wf()
    }

    pub fn new(tabs: Vec<Tab>) -> (state: Self)
        ensures
            state@.tabs == tabs@,
            state@.active == 0,
            state.wf(),
    {
        Self { tabs, active: 0 }
    }

    pub fn tabs(&self) -> (tabs: &[Tab])
        ensures
            tabs@ == self@.tabs,
    {
        self.tabs.as_slice()
    }

    /// The tabs, open to change in place. The collection ends up holding
    /// whatever the slice holds when the borrow ends, under the same active
    /// index; it stays well formed where the slice keeps its length.
    pub fn tabs_mut(&mut self) -> (tabs: &mut [Tab])
        ensures
            tabs@ == old(self)@.tabs,
            final(self)@.tabs == final(tabs)@,
            final(self)@.active == old(self)@.active,
            old(self).wf() && final(tabs)@.len() == tabs@.len() ==> final(self).wf(),
    {
        self.tabs.as_mut_slice()
    }

    pub fn len(&self) -> (len: usize)
        ensures
            len == self@.tabs.len(),
    {
        self.tabs.len()
    }

    pub fn is_empty(&self) -> (empty: bool)
        ensures
            empty == (self@.tabs.len() == 0),
    {
        self.tabs.len() == 0
    }

    pub fn active(&self) -> (active: usize)
        ensures
            active == self@.active,
            self.wf() ==> self@.tabs.len() == 0 || active < self@.tabs.len(),
    {
        self.active
    }

    pub fn set_active(&mut self, index: usize)
        ensures
            final(self)@.tabs == old(self)@.tabs,
            final(self)@.active == clamp_index(old(self)@.tabs.len(), index as nat),
            final(self).wf(),
    {
        let len: usize = self.tabs.len();
        if len == 0 {
            self.active = 0;
        } else if index < len {
            self.active = index;
        } else {
            self.active = len - 1;
        }
    }

    pub fn active_tab(&self) -> (tab: Option<&Tab>)
        ensures
            self@.active < self@.tabs.len() ==> tab == Some(&self@.tabs[self@.active as int]),
            self@.active >= self@.tabs.len() ==> tab is None,
    {
        if self.active < self.tabs.len() {
            Some(&self.tabs[self.active])
        } else {
            None
        }
    }

    /// The active tab, open to change in place: the collection ends up with
    /// that one tab replaced by what the borrow leaves in it.
    pub fn active_tab_mut(&mut self) -> (tab: Option<&mut Tab>)
        ensures
            old(self)@.active >= old(self)@.tabs.len() ==> tab is None && final(self)@ == old(self)@,
            old(self)@.active < old(self)@.tabs.len() ==> tab is Some
                && *tab->0 == old(self)@.tabs[old(self)@.active as int]
                && final(self)@.tabs == old(self)@.tabs.update(old(self)@.active as int, *final(tab->0))
                && final(self)@.active == old(self)@.active,
            old(self).wf() ==> final(self).wf(),
    {
        if self.active < self.tabs.len() {
            Some(&mut self.tabs[self.active])
        } else {
            None
        }
    }

    /// Appends a tab. The first tab of a collection becomes active; a later
    /// one leaves the active index where it was.
    pub fn add_tab(&mut self, tab: Tab)
        requires
            old(self).wf(),
        ensures
            final(self)@.tabs == old(self)@.tabs.push(tab),
            final(self)@.active == old(self)@.active,
            final(self).wf(),
    {
        self.tabs.push(tab);
        if self.tabs.len() == 1 {
            self.active = 0;
        }
    }

    /// Takes the tab at `index` out and hands it back, or does nothing for an
    /// index that names no tab.
    pub fn remove_tab(&mut self, index: usize) -> (removed: Option<Tab>)
        requires
            old(self).wf(),
        ensures
            index >= old(self)@.tabs.len() ==> removed is None && final(self)@ == old(self)@,
            index < old(self)@.tabs.len() ==> removed == Some(old(self)@.tabs[index as int])
                && final(self)@.tabs == old(self)@.tabs.remove(index as int)
                && final(self)@.active == active_after_remove(
                old(self)@.tabs.len(),
                old(self)@.active,
                index as nat,
            ),
            final(self).wf(),
    {
        if index >= self.tabs.len() {
            return None;
        }
        let removed = self.tabs.remove(index);
        if self.tabs.len() == 0 {
            self.active = 0;
        } else if index < self.active {
            self.active = self.active - 1;
        } else if index == self.active && self.active >= self.tabs.len() {
            self.active = self.tabs.len() - 1;
        }
        Some(removed)
    }

    /// Moves the active index one tab to the right, from the last tab to the
    /// first. An empty collection stays as it is.
    pub fn next(&mut self)
        requires
            old(self).wf(),
        ensures
            final(self)@.tabs == old(self)@.tabs,
            final(self)@.active == next_index(old(self)@.tabs.len(), old(self)@.active),
            final(self).wf(),
    {
        if self.tabs.len() == 0 {
            return;
        }
        self.active = (self.active + 1) % self.tabs.len();
    }

    /// Moves the active index one tab to the left, from the first tab to the
    /// last. An empty collection stays as it is.
    pub fn prev(&mut self)
        requires
            old(self).wf(),
        ensures
            final(self)@.tabs == old(self)@.tabs,
            final(self)@.active == prev_index(old(self)@.tabs.len(), old(self)@.active),
            final(self).wf(),
    {
        if self.tabs.len() == 0 {
            return;
        }
        if self.active == 0 {
            self.active = self.tabs.len() - 1;
        } else {
            self.active = self.active - 1;
        }
    }
}

/// Removing a tab that stands before the active one (the one immediately
/// before it included) keeps the same tab active: the active index goes down
/// by exactly one and still names the tab it named, title and all.
pub proof fn lemma_remove_before_active_keeps_tab(tabs: Seq<Tab>, active: nat, index: nat)
    requires
        active < tabs.len(),
        index < active,
    ensures
        active_after_remove(tabs.len(), active, index) == active - 1,
        tabs.remove(index as int)[active_after_remove(tabs.len(), active, index) as int]
            == tabs[active as int],
        tabs.remove(index as int)[active_after_remove(tabs.len(), active, index) as int].title@
            == tabs[active as int].title@,
{
}

/// Removing a tab that stands after the active one changes neither the
/// active index nor the tab it names.
pub proof fn lemma_remove_after_active_keeps_tab(tabs: Seq<Tab>, active: nat, index: nat)
    requires
        active < index < tabs.len(),
    ensures
        active_after_remove(tabs.len(), active, index) == active,
        tabs.remove(index as int)[active as int] == tabs[active as int],
{
}

/// Removing the active tab while a tab follows it leaves the index where it
/// was, so that it names the successor.
pub proof fn lemma_remove_active_focuses_successor(tabs: Seq<Tab>, active: nat)
    requires
        active + 1 < tabs.len(),
    ensures
        active_after_remove(tabs.len(), active, active) == active,
        tabs.remove(active as int)[active as int] == tabs[active as int + 1],
{
}

/// Removing the active tab when it is the last one makes the new last tab
/// active, or leaves an empty collection with index 0 if it was the only
/// tab.
pub proof fn lemma_remove_active_last(tabs: Seq<Tab>, active: nat)
    requires
        tabs.len() > 0,
        active == tabs.len() - 1,
    ensures
        tabs.len() == 1 ==> tabs.remove(active as int).len() == 0
            && active_after_remove(tabs.len(), active, active) == 0,
        tabs.len() > 1 ==> active_after_remove(tabs.len(), active, active)
            == tabs.remove(active as int).len() - 1,
{
}

/// Whatever is done to a well-formed collection, the result is well formed:
/// after `set_active`, a tab added, a tab removed, a step to the right and a
/// step to the left alike, the collection is empty with index 0 or its
/// active index names one of its tabs.
pub proof fn lemma_active_index_stays_valid(view: TabsView, index: nat, tab: Tab)
    requires
        view.wf(),
    ensures
        (TabsView { tabs: view.tabs, active: clamp_index(view.tabs.len(), index) }).wf(),
        (TabsView { tabs: view.tabs.push(tab), active: view.active }).wf(),
        index < view.tabs.len() ==> (TabsView {
            tabs: view.tabs.remove(index as int),
            active: active_after_remove(view.tabs.len(), view.active, index),
        }).wf(),
        (TabsView { tabs: view.tabs, active: next_index(view.tabs.len(), view.active) }).wf(),
        (TabsView { tabs: view.tabs, active: prev_index(view.tabs.len(), view.active) }).wf(),
{
    if view.tabs.len() > 0 {
        lemma_next_then_prev(view.tabs.len(), view.active);
    }
}

/// In a collection that is not empty, a step to the right and then a step to
/// the left ends on the tab it started from.
pub proof fn lemma_next_then_prev(len: nat, active: nat)
    requires
        active < len,
    ensures
        next_index(len, active) < len,
        prev_index(len, next_index(len, active)) == active,
{
    if active + 1 == len {
        assert((active + 1) % len == 0) by (nonlinear_arith)
            requires
                active + 1 == len,
                len > 0,
        ;
    } else {
        assert((active + 1) % len == active + 1) by (nonlinear_arith)
            requires
                active + 1 < len,
        ;
    }
}

/// In a collection that is not empty, a step to the left and then a step to
/// the right ends on the tab it started from.
pub proof fn lemma_prev_then_next(len: nat, active: nat)
    requires
        active < len,
    ensures
        prev_index(len, active) < len,
        next_index(len, prev_index(len, active)) == active,
{
    if active == 0 {
        assert(((len - 1) as nat + 1) % len == 0) by (nonlinear_arith)
            requires
                len > 0,
        ;
    } else {
        assert(((active - 1) as nat + 1) % len == active) by (nonlinear_arith)
            requires
                0 < active < len,
        ;
    }
}

/// With a single tab, a step to the right and a step to the left both stay
/// on that tab.
pub proof fn lemma_single_tab_stays(active: nat)
    requires
        active < 1,
    ensures
        next_index(1, active) == active,
        prev_index(1, active) == active,
{
}

} // verus!
