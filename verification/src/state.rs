//! What is remembered while running.

use crate::geometry;
use crate::geometry::Rect;
use crate::settings::{Settings, SettingsModel};
use crate::text;
use vstd::prelude::*;

verus! {

/// The least width that is reserved for a window that keeps its own.
pub const MIN_WIDTH: i32 = 280;

/// How many windows the menu offers at most.
pub const MENU_WINDOWS: usize = 40;

/// The state of the program. A handle of 0 stands for no window.
pub struct State {
    pub settings: Settings,
    /// The window that is pinned.
    pub target: usize,
    /// The invisible window that holds the reserved strip.
    pub bar: usize,
    /// Does the shell know of the bar?
    pub bar_registered: bool,
    /// The strip that the shell granted last.
    pub bar_rect: Rect,
    /// Must the strip be asked for again?
    pub bar_dirty: bool,
    /// The width that the window had when it was found, or 0 if it has not been measured.
    pub keep_w: i32,
    /// The height that it had then.
    pub keep_h: i32,
    /// Has the user been told of the pinned window?
    pub notified: bool,
    /// The titles that the menu offered last.
    pub menu_windows: Vec<String>,
}

/// The state as a value.
#[verifier::ext_equal]
pub ghost struct StateModel {
    pub settings: SettingsModel,
    pub target: usize,
    pub bar: usize,
    pub bar_registered: bool,
    pub bar_rect: Rect,
    pub bar_dirty: bool,
    pub keep_w: i32,
    pub keep_h: i32,
    pub notified: bool,
    pub menu_windows: Seq<Seq<char>>,
}

impl View for State {
    type V = StateModel;

    open spec fn view(&self) -> StateModel {
        StateModel {
            settings: self.settings@,
            target: self.target,
            bar: self.bar,
            bar_registered: self.bar_registered,
            bar_rect: self.bar_rect,
            bar_dirty: self.bar_dirty,
            keep_w: self.keep_w,
            keep_h: self.keep_h,
            notified: self.notified,
            menu_windows: text::texts(self.menu_windows@),
        }
    }
}

impl StateModel {
    /// What holds of the state at all times: a width that was measured is not below the least one
    /// and belongs to a window, and so does a height; a strip is held only by a registered bar, and
    /// one that is not registered has to ask; and the menu offered no more windows than it may.
    pub open spec fn wf(self) -> bool {
        &&& self.keep_w == 0 || self.keep_w >= MIN_WIDTH
        &&& self.target == 0 ==> self.keep_w == 0
        &&& self.keep_w == 0 ==> self.keep_h == 0
        &&& !self.bar_registered ==> self.bar_dirty && self.bar_rect == geometry::zero_rect()
        &&& self.menu_windows.len() <= MENU_WINDOWS
    }
}

/// The state at the start.
pub open spec fn first_state(settings: SettingsModel, bar: usize) -> StateModel {
    StateModel {
        settings,
        target: 0,
        bar,
        bar_registered: false,
        bar_rect: geometry::zero_rect(),
        bar_dirty: true,
        keep_w: 0,
        keep_h: 0,
        notified: false,
        menu_windows: Seq::empty(),
    }
}

/// The state after the pinned window was given up.
pub open spec fn without_target(s: StateModel) -> StateModel {
    StateModel { target: 0, keep_w: 0, keep_h: 0, notified: false, ..s }
}

impl State {
    /// The state at the start: no window is pinned and no strip is reserved.
    pub fn new(settings: Settings, bar: usize) -> (s: State)
        ensures
            s@ == first_state(settings@, bar),
            s@.wf(),
    {
        let s = State {
            settings,
            target: 0,
            bar,
            bar_registered: false,
            bar_rect: Rect::zero(),
            bar_dirty: true,
            keep_w: 0,
            keep_h: 0,
            notified: false,
            menu_windows: Vec::new(),
        };
        assert(s@ =~= first_state(settings@, bar));
        s
    }

    /// Gives up the pinned window: it is looked for anew, measured anew and announced anew.
    pub fn reset_target(&mut self)
        ensures
            final(self)@ == without_target(old(self)@),
            old(self)@.wf() ==> final(self)@.wf(),
    {
        self.target = 0;
        self.keep_w = 0;
        self.keep_h = 0;
        self.notified = false;
    }
}

/// At the start no window is pinned, measured or announced, nothing is reserved, the strip has to be
/// asked for, and no window was offered; settings and bar are those that were given.
pub proof fn start_holds_nothing(settings: SettingsModel, bar: usize)
    ensures
        ({
            let s = first_state(settings, bar);
            &&& s.settings == settings && s.bar == bar
            &&& s.target == 0 && s.keep_w == 0 && s.keep_h == 0 && !s.notified
            &&& !s.bar_registered && s.bar_dirty
            &&& s.bar_rect.left == 0 && s.bar_rect.top == 0 && s.bar_rect.right == 0
                && s.bar_rect.bottom == 0
            &&& s.menu_windows.len() == 0
        }),
{
}

/// Giving the window up forgets the window, its size and its announcement, and nothing else.
pub proof fn giving_up_forgets_the_window(s: StateModel)
    ensures
        ({
            let t = without_target(s);
            &&& t.target == 0 && t.keep_w == 0 && t.keep_h == 0 && !t.notified
            &&& t.settings == s.settings && t.bar == s.bar && t.bar_registered == s.bar_registered
            &&& t.bar_rect == s.bar_rect && t.bar_dirty == s.bar_dirty
            &&& t.menu_windows == s.menu_windows
        }),
{
}

/// A state as a value has what the state has, each under its own name.
pub proof fn state_shows_what_it_holds(s: State, i: int)
    ensures
        s@.settings == s.settings@,
        s@.target == s.target,
        s@.bar == s.bar,
        s@.bar_registered == s.bar_registered,
        s@.bar_rect == s.bar_rect,
        s@.bar_dirty == s.bar_dirty,
        s@.keep_w == s.keep_w,
        s@.keep_h == s.keep_h,
        s@.notified == s.notified,
        s@.menu_windows.len() == s.menu_windows@.len(),
        0 <= i < s.menu_windows@.len() ==> s@.menu_windows[i] == s.menu_windows@[i]@,
{
}

} // verus!
