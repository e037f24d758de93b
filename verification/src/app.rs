//! The session: the tab collection, the launch profiles, and what key chords
//! and geometry changes do to them.
//!
//! Spawning a pane and delivering input to one are left to the caller. The
//! session says which of the two is due and takes the spawned pane back.

use vstd::prelude::*;
use vstd::string::StringSliceAdditionalSpecFns;
use cockpit::{PaneHandle, PaneId, PaneManager};
use crate::pane::{pane_handle, pane_ids, focus_pane, resize_pane};
use crate::profiles::Profile;
use crate::tabs::{
    active_after_remove, focus_moved_to, focuses_own_pane, new_tab, next_index, prev_index,
    same_pane_state, tab_bound_to, Tab, TabsState, TabsView,
};

verus! {

/// A rectangle on screen: its top left corner and its size, in cells.
#[derive(Clone, Copy, Debug, PartialEq, Eq)]
pub struct Area {
    pub x: u16,
    pub y: u16,
    pub width: u16,
    pub height: u16,
}

/// A key press, as far as the session reads it: the character it carries, if
/// it carries one, and whether the control modifier was held.
#[derive(Clone, Copy, Debug, PartialEq, Eq)]
pub struct KeyPress {
    pub character: Option<char>,
    pub control: bool,
}

/// What a key press means to the session.
#[derive(Clone, Copy, Debug, PartialEq, Eq)]
pub enum Chord {
    Quit,
    OpenTab,
    CloseTab,
    NextTab,
    PrevTab,
    Other,
}

/// What is left for the caller to do after a key press.
#[derive(Clone, Copy, Debug, PartialEq, Eq)]
pub enum KeyAction {
    /// Nothing: the session dealt with the key.
    Handled,
    /// Spawn a pane for the profile at this index and hand it to
    /// `add_tab_from_next_profile`.
    Spawn { profile_index: usize },
    /// Deliver the key to the pane of the tab at this index, the active one.
    Route { tab_index: usize },
    /// Nothing: there is no tab that could take the key.
    Dropped,
}

/// Why a session could not be set up.
#[derive(Clone, Copy, Debug, PartialEq, Eq)]
pub enum AppError {
    /// There is no profile to open a tab from.
    NoProfiles,
}

impl KeyPress {
    /// Control with `q` quits, with `t` opens a tab, with `w` closes the
    /// active tab, with `n` and `p` steps to the next and the previous tab.
    /// Every other key press is input for the active pane.
    pub open spec fn spec_chord(self) -> Chord {
        if !self.control {
            Chord::Other
        } else if self.character == Some('q') {
            Chord::Quit
        } else if self.character == Some('t') {
            Chord::OpenTab
        } else if self.character == Some('w') {
            Chord::CloseTab
        } else if self.character == Some('n') {
            Chord::NextTab
        } else if self.character == Some('p') {
            Chord::PrevTab
        } else {
            Chord::Other
        }
    }

    #[verifier::when_used_as_spec(spec_chord)]
    pub fn chord(self) -> (chord: Chord)
        ensures
            chord == self.spec_chord(),
    {
        if !self.control {
            return Chord::Other;
        }
        match self.character {
            Some(c) => {
                if c == 'q' {
                    Chord::Quit
                } else if c == 't' {
                    Chord::OpenTab
                } else if c == 'w' {
                    Chord::CloseTab
                } else if c == 'n' {
                    Chord::NextTab
                } else if c == 'p' {
                    Chord::PrevTab
                } else {
                    Chord::Other
                }
            },
            None => Chord::Other,
        }
    }
}

/// The session.
pub struct App {
    profiles: Vec<Profile>,
    tabs: TabsState,
    last_pane_size: Option<(u16, u16)>,
    next_profile_index: usize,
}

/// A session as a value.
pub struct AppView {
    pub profiles: Seq<Profile>,
    pub tabs: TabsView,
    /// The rows and columns that the panes were last resized to.
    pub last_pane_size: Option<(u16, u16)>,
    /// The index of the profile that the next opened tab starts from.
    pub next_profile: nat,
}

impl AppView {
    /// The active tab's engine focuses the active tab's pane.
    pub open spec fn focus_synced(self) -> bool {
        self.tabs.active < self.tabs.tabs.len() ==> focuses_own_pane(
            self.tabs.tabs[self.tabs.active as int],
        )
    }

    /// The tab collection is well formed, there is a profile, the profile
    /// cursor names one, and the focus follows the active tab.
    pub open spec fn wf(self) -> bool {
        &&& self.tabs.wf()
        &&& self.next_profile < self.profiles.len()
        &&& self.focus_synced()
    }

    /// `self` but for the tabs and the active index.
    pub open spec fn with_tabs(self, tabs: TabsView) -> AppView {
        AppView { tabs, ..self }
    }
}

impl View for App {
    type V = AppView;

    closed spec fn view(&self) -> AppView {
        AppView {
            profiles: self.profiles@,
            tabs: self.tabs@,
            last_pane_size: self.last_pane_size,
            next_profile: self.next_profile_index as nat,
        }
    }
}

/// `post` is `pre` after the active tab's engine was asked to focus the
/// active tab's pane.
pub open spec fn refocused(pre: AppView, post: AppView) -> bool {
    &&& post.profiles == pre.profiles
    &&& post.last_pane_size == pre.last_pane_size
    &&& post.next_profile == pre.next_profile
    &&& post.tabs.active == pre.tabs.active
    &&& focus_moved_to(pre.tabs.tabs, post.tabs.tabs, pre.tabs.active)
}

/// `post` is `pre` after a step to the next tab: the active index moved one
/// to the right, and the focus went with it.
pub open spec fn stepped_next(pre: AppView, post: AppView) -> bool {
    refocused(
        pre.with_tabs(
            TabsView {
                tabs: pre.tabs.tabs,
                active: next_index(pre.tabs.tabs.len(), pre.tabs.active),
            },
        ),
        post,
    )
}

/// `post` is `pre` after a step to the previous tab: the active index moved
/// one to the left, and the focus went with it.
pub open spec fn stepped_prev(pre: AppView, post: AppView) -> bool {
    refocused(
        pre.with_tabs(
            TabsView {
                tabs: pre.tabs.tabs,
                active: prev_index(pre.tabs.tabs.len(), pre.tabs.active),
            },
        ),
        post,
    )
}

/// `post` is `pre` after the active tab was closed: nothing happened to a
/// session without tabs; otherwise the active tab left, the index was
/// repaired, and the focus went to the tab that is active now.
pub open spec fn closed_active(pre: AppView, post: AppView) -> bool {
    if pre.tabs.tabs.len() == 0 {
        post == pre
    } else {
        refocused(
            pre.with_tabs(
                TabsView {
                    tabs: pre.tabs.tabs.remove(pre.tabs.active as int),
                    active: active_after_remove(
                        pre.tabs.tabs.len(),
                        pre.tabs.active,
                        pre.tabs.active,
                    ),
                },
            ),
            post,
        )
    }
}

/// The rows and columns left for a pane inside a rectangle, after two rows
/// and two columns went to the border. A rectangle that leaves no row or no
/// column has no pane size.
pub open spec fn pane_size_for(area: Area) -> Option<(u16, u16)> {
    if area.height <= 2 || area.width <= 2 {
        None
    } else {
        Some(((area.height - 2) as u16, (area.width - 2) as u16))
    }
}

/// The size that the panes have to be resized to for a rectangle, when
/// `last` is the size they were last resized to; `None` where no resize is
/// due, for want of room or because the size is the one they have.
pub open spec fn resize_due(last: Option<(u16, u16)>, area: Area) -> Option<(u16, u16)> {
    match pane_size_for(area) {
        Some(size) => if last == Some(size) {
            None
        } else {
            Some(size)
        },
        None => None,
    }
}

/// The size that the panes were last resized to, once `resize_all` has dealt
/// with a rectangle.
pub open spec fn last_size_after(last: Option<(u16, u16)>, area: Area) -> Option<(u16, u16)> {
    match resize_due(last, area) {
        Some(size) => Some(size),
        None => last,
    }
}

/// Every tab of `after` is the tab of `before` in its place, with whatever
/// its engine did meanwhile, over the same panes and with the same focus.
pub open spec fn same_tabs_resized(before: Seq<Tab>, after: Seq<Tab>) -> bool {
    &&& after.len() == before.len()
    &&& forall|i: int| 0 <= i < before.len() ==> same_pane_state(before[i], #[trigger] after[i])
}

/// The profile that the next tab starts from, among `len` profiles.
pub open spec fn picked_profile(len: nat, cursor: nat) -> nat {
    cursor % len
}

/// The cursor once a profile was picked: on the profile after the picked
/// one, and on the first after the last.
pub open spec fn cursor_after(len: nat, cursor: nat) -> nat {
    (picked_profile(len, cursor) + 1) % len
}

/// `post` is `pre` after a profile was picked for a new tab: the cursor moved
/// on to the profile after the picked one, wrapping to the first.
pub open spec fn profile_picked(pre: AppView, post: AppView) -> bool {
    post == AppView { next_profile: cursor_after(pre.profiles.len(), pre.next_profile), ..pre }
}

/// `post` is `pre` after a tab was opened on a spawned pane for the profile
/// at `profile_index`: the new tab stands last, is active and focused, and
/// carries the profile's name and index.
pub open spec fn tab_opened(
    pre: AppView,
    post: AppView,
    profile_index: usize,
    manager: PaneManager,
    pane_id: PaneId,
) -> bool {
    &&& post.profiles == pre.profiles
    &&& post.last_pane_size == pre.last_pane_size
    &&& post.next_profile == pre.next_profile
    &&& post.tabs.active == pre.tabs.tabs.len()
    &&& post.tabs.tabs.len() == pre.tabs.tabs.len() + 1
    &&& post.tabs.tabs.subrange(0, pre.tabs.tabs.len() as int) =~= pre.tabs.tabs
    &&& tab_bound_to(
        post.tabs.tabs.last(),
        pre.profiles[profile_index as int].name@,
        Some(profile_index),
        manager,
        pane_id,
    )
}

/// What a key press does to a session and leaves for the caller: the state
/// after it, the quit flag after it, and the action.
pub open spec fn key_handled(
    pre: AppView,
    quit_before: bool,
    key: KeyPress,
    post: AppView,
    quit_after: bool,
    action: KeyAction,
) -> bool {
    match key.spec_chord() {
        Chord::Quit => quit_after && post == pre && action == KeyAction::Handled,
        Chord::OpenTab => quit_after == quit_before && profile_picked(pre, post) && action
            == (KeyAction::Spawn {
            profile_index: picked_profile(pre.profiles.len(), pre.next_profile) as usize,
        }),
        Chord::CloseTab => quit_after == quit_before && closed_active(pre, post) && action
            == KeyAction::Handled,
        Chord::NextTab => quit_after == quit_before && stepped_next(pre, post) && action
            == KeyAction::Handled,
        Chord::PrevTab => quit_after == quit_before && stepped_prev(pre, post) && action
            == KeyAction::Handled,
        Chord::Other => quit_after == quit_before && post == pre && action == (if pre.tabs.tabs.len()
            == 0 {
            KeyAction::Dropped
        } else {
            KeyAction::Route { tab_index: pre.tabs.active as usize }
        }),
    }
}

/// Resizing twice for the same rectangle resizes once: whatever size the
/// panes had before, once `resize_all` has dealt with a rectangle, no resize
/// is due for that rectangle again.
pub proof fn lemma_resize_twice_is_once(last: Option<(u16, u16)>, area: Area)
    ensures
        resize_due(last_size_after(last, area), area) is None,
        last_size_after(last_size_after(last, area), area) == last_size_after(last, area),
{
}

/// A rectangle of at most two rows or at most two columns never has the
/// panes resized, and leaves the remembered size as it is.
pub proof fn lemma_degenerate_area_never_resizes(last: Option<(u16, u16)>, area: Area)
    requires
        area.height <= 2 || area.width <= 2,
    ensures
        resize_due(last, area) is None,
        last_size_after(last, area) == last,
{
}

/// Once the remembered size is forgotten, every rectangle that leaves room
/// has the panes resized, also to the size that they had.
pub proof fn lemma_forgotten_size_resizes(area: Area)
    ensures
        resize_due(None, area) == pane_size_for(area),
{
}

impl App {
    pub open spec fn wf(&self) -> bool {
        self@.wf()
    }

    /// Sets up a session from the profiles and the pane that was spawned for
    /// each, in the profiles' order: one tab per profile, under the profile's
    /// name and index, every tab's engine focused on the tab's pane, and the
    /// first tab active. Without a profile there is no session.
    pub fn new(launched: Vec<(Profile, PaneManager, PaneId)>) -> (session: Result<App, AppError>)
        ensures
            launched@.len() == 0 <==> session is Err,
            session is Err ==> session == Err::<App, AppError>(AppError::NoProfiles),
            session matches Ok(app) ==> {
                &&& app.wf()
                &&& app@.tabs.active == 0
                &&& app@.last_pane_size is None
                &&& app@.next_profile == 0
                &&& app@.profiles.len() == launched@.len()
                &&& app@.tabs.tabs.len() == launched@.len()
                &&& forall|i: int|
                    0 <= i < launched@.len() ==> #[trigger] app@.profiles[i] == launched@[i].0
                &&& forall|i: int|
                    0 <= i < launched@.len() ==> tab_bound_to(
                        #[trigger] app@.tabs.tabs[i],
                        launched@[i].0.name@,
                        Some(i as usize),
                        launched@[i].1,
                        launched@[i].2,
                    )
            },
    {
        if launched.len() == 0 {
            return Err(AppError::NoProfiles);
        }
        let mut profiles: Vec<Profile> = Vec::new();
        let mut tabs: Vec<Tab> = Vec::new();
        for item in it: launched
            invariant
                profiles@.len() == it.index(),
                tabs@.len() == it.index(),
                forall|i: int| 0 <= i < it.index() ==> #[trigger] profiles@[i] == launched@[i].0,
                forall|i: int|
                    0 <= i < it.index() ==> tab_bound_to(
                        #[trigger] tabs@[i],
                        launched@[i].0.name@,
                        Some(i as usize),
                        launched@[i].1,
                        launched@[i].2,
                    ),
        {
            let (profile, manager, pane_id) = item;
            let index: usize = tabs.len();
            let tab = new_tab(profile.name.clone(), Some(index), manager, pane_id);
            tabs.push(tab);
            profiles.push(profile);
        }
        let mut app = App {
            profiles,
            tabs: TabsState::new(tabs),
            last_pane_size: None,
            next_profile_index: 0,
        };
        app.focus_active();
        Ok(app)
    }

    pub fn tabs(&self) -> (tabs: &TabsState)
        ensures
            tabs@ == self@.tabs,
    {
        &self.tabs
    }

    pub fn profiles(&self) -> (profiles: &[Profile])
        ensures
            profiles@ == self@.profiles,
    {
        self.profiles.as_slice()
    }

    /// Asks the active tab's engine to focus the active tab's pane.
    pub fn focus_active(&mut self)
        requires
            old(self)@.tabs.wf(),
        ensures
            refocused(old(self)@, final(self)@),
            final(self)@.tabs.wf(),
            final(self)@.focus_synced(),
    {
        match self.tabs.active_tab_mut() {
            Some(tab) => {
                focus_pane(&mut tab.manager, tab.pane_id);
            },
            None => {},
        }
    }

    /// Makes the next tab active and moves the focus to it.
    pub fn next_tab(&mut self)
        requires
            old(self).wf(),
        ensures
            stepped_next(old(self)@, final(self)@),
            final(self).wf(),
    {
        self.tabs.next();
        self.focus_active();
    }

    /// Makes the previous tab active and moves the focus to it.
    pub fn prev_tab(&mut self)
        requires
            old(self).wf(),
        ensures
            stepped_prev(old(self)@, final(self)@),
            final(self).wf(),
    {
        self.tabs.prev();
        self.focus_active();
    }

    /// Closes the active tab, which releases its pane, and moves the focus to
    /// the tab that is active afterwards.
    pub fn close_active_tab(&mut self)
        requires
            old(self).wf(),
        ensures
            closed_active(old(self)@, final(self)@),
            final(self).wf(),
    {
        if self.tabs.is_empty() {
            return;
        }
        let active = self.tabs.active();
        let _ = self.tabs.remove_tab(active);
        if !self.tabs.is_empty() {
            self.focus_active();
        }
    }
    /// The handle of the active tab's pane, where there is an active tab and
    /// its engine runs its pane.
    pub fn active_handle(&self) -> (handle: Option<&PaneHandle>)
        ensures
            handle is Some <==> self@.tabs.active < self@.tabs.tabs.len() && pane_ids(
                self@.tabs.tabs[self@.tabs.active as int].manager,
            ).contains(self@.tabs.tabs[self@.tabs.active as int].pane_id.0),
    {
        match self.tabs.active_tab() {
            Some(tab) => pane_handle(&tab.manager, tab.pane_id),
            None => None,
        }
    }

    /// The title of the active tab, which is the name of its profile.
    pub fn active_profile_name(&self) -> (name: Option<&str>)
        ensures
            self@.tabs.active >= self@.tabs.tabs.len() ==> name is None,
            self@.tabs.active < self@.tabs.tabs.len() ==> name is Some && name->0@
                == self@.tabs.tabs[self@.tabs.active as int].title@,
    {
        match self.tabs.active_tab() {
            Some(tab) => Some(tab.title.as_str()),
            None => None,
        }
    }

    /// Brings every tab's pane to the size that fits the rectangle, unless
    /// the rectangle leaves no room or the panes have that size already.
    /// Returns the size that the panes were resized to, if they were.
    pub fn resize_all(&mut self, area: Area) -> (resized: Option<(u16, u16)>)
        requires
            old(self).wf(),
        ensures
            resized == resize_due(old(self)@.last_pane_size, area),
            resized is None ==> final(self)@ == old(self)@,
            final(self)@.last_pane_size == last_size_after(old(self)@.last_pane_size, area),
            final(self)@.profiles == old(self)@.profiles,
            final(self)@.next_profile == old(self)@.next_profile,
            final(self)@.tabs.active == old(self)@.tabs.active,
            same_tabs_resized(old(self)@.tabs.tabs, final(self)@.tabs.tabs),
            final(self).wf(),
    {
        let rows: u16 = area.height.saturating_sub(2);
        let cols: u16 = area.width.saturating_sub(2);
        if rows == 0 || cols == 0 {
            return None;
        }
        let size = (rows, cols);
        match self.last_pane_size {
            Some(last) => {
                if last.0 == rows && last.1 == cols {
                    return None;
                }
            },
            None => {},
        }
        self.last_pane_size = Some(size);

        let count: usize = self.tabs.len();
        let mut index: usize = 0;
        while index < count
            invariant
                index <= count,
                count == old(self)@.tabs.tabs.len(),
                self@.profiles == old(self)@.profiles,
                self@.next_profile == old(self)@.next_profile,
                self@.last_pane_size == Some(size),
                self@.tabs.active == old(self)@.tabs.active,
                same_tabs_resized(old(self)@.tabs.tabs, self@.tabs.tabs),
            decreases count - index,
        {
            let tabs = self.tabs.tabs_mut();
            let tab = &mut tabs[index];
            resize_pane(&mut tab.manager, tab.pane_id, rows, cols);
            index = index + 1;
        }
        Some(size)
    }

    /// Forgets the size that the panes were last resized to, so that the next
    /// `resize_all` resizes them whatever the rectangle.
    pub fn handle_resize(&mut self)
        ensures
            final(self)@ == (AppView { last_pane_size: None, ..old(self)@ }),
    {
        self.last_pane_size = None;
    }

    /// Picks the profile for the next tab and moves the cursor past it.
    pub fn next_profile(&mut self) -> (picked: Option<usize>)
        ensures
            old(self)@.profiles.len() == 0 ==> picked is None && final(self)@ == old(self)@,
            old(self)@.profiles.len() > 0 ==> picked == Some(
                picked_profile(old(self)@.profiles.len(), old(self)@.next_profile) as usize,
            ) && profile_picked(old(self)@, final(self)@),
    {
        let count: usize = self.profiles.len();
        if count == 0 {
            return None;
        }
        let index: usize = self.next_profile_index % count;
        self.next_profile_index = (index + 1) % count;
        Some(index)
    }

    /// Opens a tab on a pane that was spawned for the profile at
    /// `profile_index`: the tab goes last, becomes active and gets the focus.
    pub fn add_tab_from_next_profile(
        &mut self,
        profile_index: usize,
        manager: PaneManager,
        pane_id: PaneId,
    )
        requires
            old(self).wf(),
            profile_index < old(self)@.profiles.len(),
        ensures
            tab_opened(old(self)@, final(self)@, profile_index, manager, pane_id),
            final(self).wf(),
    {
        let title = self.profiles[profile_index].name.clone();
        let tab = new_tab(title, Some(profile_index), manager, pane_id);
        self.tabs.add_tab(tab);
        let last_index: usize = self.tabs.len().saturating_sub(1);
        self.tabs.set_active(last_index);
        self.focus_active();
    }

    /// Deals with a key press. The five chords act on the session; any other
    /// key is for the active tab's pane, and is dropped where there is no
    /// tab.
    pub fn handle_key(&mut self, key: KeyPress, should_quit: &mut bool) -> (action: KeyAction)
        requires
            old(self).wf(),
        ensures
            key_handled(
                old(self)@,
                *old(should_quit),
                key,
                final(self)@,
                *final(should_quit),
                action,
            ),
            final(self).wf(),
    {
        match key.chord() {
            Chord::Quit => {
                *should_quit = true;
                KeyAction::Handled
            },
            Chord::OpenTab => {
                match self.next_profile() {
                    Some(profile_index) => KeyAction::Spawn { profile_index },
                    None => KeyAction::Handled,
                }
            },
            Chord::CloseTab => {
                self.close_active_tab();
                KeyAction::Handled
            },
            Chord::NextTab => {
                self.next_tab();
                KeyAction::Handled
            },
            Chord::PrevTab => {
                self.prev_tab();
                KeyAction::Handled
            },
            Chord::Other => {
                if self.tabs.is_empty() {
                    KeyAction::Dropped
                } else {
                    KeyAction::Route { tab_index: self.tabs.active() }
                }
            },
        }
    }

    /// Deals with pasted text: it goes to the active tab's pane as the bytes
    /// it is made of, and is dropped where there is no active tab.
    pub fn handle_paste<'a>(&'a self, text: &'a str) -> (input: Option<(&'a Tab, &'a [u8])>)
        ensures
            match input {
                Some((tab, bytes)) => self@.tabs.active < self@.tabs.tabs.len() && *tab
                    == self@.tabs.tabs[self@.tabs.active as int] && bytes@ == text.spec_bytes(),
                None => self@.tabs.active >= self@.tabs.tabs.len(),
            },
    {
        match self.tabs.active_tab() {
            Some(tab) => Some((tab, text.as_bytes())),
            None => None,
        }
    }
}

} // verus!
