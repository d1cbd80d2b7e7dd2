//! The watch over the pinned window. One round finds the window, brings it back from being
//! minimized or maximized, reserves its strip, and puts it there.
//!
//! A round starts with `Event::Tick`. Each step gives the next phase and an action; what the action
//! brings is the event of the following step. The round is over when the phase is `Phase::Idle`.

use crate::appbar;
use crate::appbar::{BarAction, BarEvent, BarPhase, BarStep, Release};
use crate::commands;
use crate::geometry;
use crate::geometry::Rect;
use crate::settings;
use crate::settings::SettingsModel;
use crate::state::{State, StateModel, MIN_WIDTH};
use crate::text;
use crate::utf16;
use crate::win32;
use crate::windows;
use crate::windows::Sighting;
use vstd::prelude::*;
use vstd::string::*;

verus! {

/// What a round waits for.
#[derive(Clone, Copy, Debug, PartialEq, Eq, Structural)]
pub enum Phase {
    /// The start of a round.
    Idle,
    /// Whether the pinned window still exists.
    Checking,
    /// The windows of the desktop.
    Searching,
    /// The end of the release of the strip.
    Releasing,
    /// Whether the window is minimized.
    Iconic,
    /// The end of the restoring of the minimized window.
    RestoringIconic,
    /// Whether the window is maximized.
    Zoomed,
    /// The end of the restoring of the maximized window.
    RestoringZoomed,
    /// The rectangle of the window, to keep its size.
    Measuring,
    /// An answer for the reservation of the strip.
    Bar { phase: BarPhase },
    /// Where the window is and how it is shown; it belongs into the strip `rect`.
    Placing { rect: Rect },
    /// The end of the move of the window.
    Moving,
    /// The end of the announcement.
    Notifying,
    /// The title of the window.
    Titling,
}

/// What an action brings.
pub enum Event {
    Tick,
    Done,
    Flag { on: bool },
    Rect { rect: Rect },
    Windows { seen: Vec<Sighting> },
    Placement { rect: Rect, ex_style: i32 },
    Title { title: String },
}

/// What has to be done next.
pub enum Action<T> {
    /// Does the window exist? Answer: `Flag`.
    IsWindow { handle: usize },
    /// Which windows are there? Answer: `Windows`.
    ListWindows,
    /// Give the strip up. Answer: `Done`.
    Release { release: Release },
    /// Is the window minimized? Answer: `Flag`.
    IsIconic { handle: usize },
    /// Is the window maximized? Answer: `Flag`.
    IsZoomed { handle: usize },
    /// Show the window in its normal size. Answer: `Done`.
    Restore { handle: usize },
    /// Where is the window? Answer: `Rect`.
    WindowRect { handle: usize },
    /// Which monitor is nearest to the window? Answer: `Rect`, all of the monitor.
    MonitorRect { handle: usize },
    /// A step of the reservation. Answer: `Rect` or `Done`.
    Bar { action: BarAction },
    /// Where is the window, and what is its extended style? Answer: `Placement`.
    Placement { handle: usize },
    /// Move the window and put it above all others or not, without activating it. Answer: `Done`.
    Place { handle: usize, topmost: bool, x: i32, y: i32, w: i32, h: i32 },
    /// Show a balloon at the tray icon. Answer: `Done`.
    Balloon { title: T, msg: T },
    /// What is the title of the window? Answer: `Title`.
    Title { handle: usize },
    /// Set the text of the tray icon. The round is over.
    SetTip { tip: T },
}

impl View for Action<String> {
    type V = Action<Seq<char>>;

    open spec fn view(&self) -> Action<Seq<char>> {
        match *self {
            Action::IsWindow { handle } => Action::IsWindow { handle },
            Action::ListWindows => Action::ListWindows,
            Action::Release { release } => Action::Release { release },
            Action::IsIconic { handle } => Action::IsIconic { handle },
            Action::IsZoomed { handle } => Action::IsZoomed { handle },
            Action::Restore { handle } => Action::Restore { handle },
            Action::WindowRect { handle } => Action::WindowRect { handle },
            Action::MonitorRect { handle } => Action::MonitorRect { handle },
            Action::Bar { action } => Action::Bar { action },
            Action::Placement { handle } => Action::Placement { handle },
            Action::Place { handle, topmost, x, y, w, h } => Action::Place {
                handle,
                topmost,
                x,
                y,
                w,
                h,
            },
            Action::Balloon { title, msg } => Action::Balloon { title: title@, msg: msg@ },
            Action::Title { handle } => Action::Title { handle },
            Action::SetTip { tip } => Action::SetTip { tip: tip@ },
        }
    }
}

/// The name of the program.
pub const APP_NAME: &'static str = "CornerPin";

/// The text of the tray icon while no window is found.
pub open spec fn waiting_tip(s: SettingsModel) -> Seq<char> {
    "CornerPin · Bekleniyor: "@ + text::cut(s.window_match, 20)
}

/// The text of the tray icon while a window is pinned.
pub open spec fn pinned_tip(title: Seq<char>) -> Seq<char> {
    "CornerPin · "@ + text::cut(title, 30)
}

/// The announcement of a pinned window.
pub open spec fn pinned_msg(s: SettingsModel) -> Seq<char> {
    s.window_match + " "@ + settings::side_text(s.edge)
        + " kenarına sabitlendi. Diğer pencereler artık onun alanına giremez."@
}

/// The width to reserve, where it is known without measuring the window.
pub open spec fn known_width(s: StateModel) -> Option<i32> {
    if s.settings.width_mode == 1 {
        Some(420)
    } else if s.settings.width_mode == 2 {
        Some(520)
    } else if s.keep_w != 0 {
        Some(s.keep_w)
    } else {
        None
    }
}

/// The width to reserve for a window that is at `r`.
pub open spec fn measured_width(r: Rect) -> int {
    if r.wide() < MIN_WIDTH {
        MIN_WIDTH as int
    } else {
        r.wide()
    }
}

/// Does the window take the full height of its strip?
pub open spec fn full_height(s: SettingsModel) -> bool {
    s.width_mode == 1 || s.width_mode == 2
}

/// Where the window belongs in its strip: all of it, or, for a window that keeps its size, as much
/// of its height as the strip has room for, at the upper or the lower end as the chosen corner
/// says.
pub open spec fn place_in(s: StateModel, strip: Rect) -> Rect {
    if full_height(s.settings) {
        strip
    } else {
        geometry::end_of(strip, s.keep_h, s.settings.top)
    }
}

/// Can coordinates hold the strip's sides and the place of the window in it?
pub open spec fn place_fits(s: StateModel, strip: Rect) -> bool {
    if full_height(s.settings) {
        geometry::sides_fit(strip)
    } else {
        geometry::end_fits(strip, s.keep_h, s.settings.top)
    }
}

/// Does a window that is at `r` have to be moved to its place in the strip or shown otherwise?
pub open spec fn needs_placing(s: StateModel, r: Rect, ex_style: i32, strip: Rect) -> bool {
    geometry::misplaced(r, place_in(s, strip)) || win32::style_has(
        ex_style,
        win32::WS_EX_TOPMOST,
    ) != s.settings.top_most
}

/// The move of the window to its place in the strip.
pub open spec fn put(s: StateModel, strip: Rect) -> Action<Seq<char>> {
    let place = place_in(s, strip);
    Action::Place {
        handle: s.target,
        topmost: s.settings.top_most,
        x: place.left,
        y: place.top,
        w: place.wide() as i32,
        h: place.high() as i32,
    }
}

/// What one step of a round leads to.
pub ghost struct Outcome {
    pub state: StateModel,
    pub phase: Phase,
    pub action: Action<Seq<char>>,
}

/// Look for the window among all windows.
pub open spec fn search(s: StateModel) -> Outcome {
    Outcome { state: s, phase: Phase::Searching, action: Action::ListWindows }
}

/// See to the window that was found.
pub open spec fn attend(s: StateModel) -> Outcome {
    Outcome { state: s, phase: Phase::Iconic, action: Action::IsIconic { handle: s.target } }
}

/// Restore the window, then go on in the given phase.
pub open spec fn restore(s: StateModel, phase: Phase) -> Outcome {
    Outcome { state: s, phase, action: Action::Restore { handle: s.target } }
}

/// Ask whether the window is maximized.
pub open spec fn check_zoom(s: StateModel) -> Outcome {
    Outcome { state: s, phase: Phase::Zoomed, action: Action::IsZoomed { handle: s.target } }
}

/// Reserve a strip of the given width on the monitor of the window.
pub open spec fn reserve(s: StateModel, width: i32) -> Outcome {
    Outcome {
        state: s,
        phase: Phase::Bar { phase: BarPhase::Begin { width } },
        action: Action::MonitorRect { handle: s.target },
    }
}

/// Find out the width to reserve.
pub open spec fn size_up(s: StateModel) -> Outcome {
    match known_width(s) {
        Some(width) => reserve(s, width),
        None => Outcome {
            state: s,
            phase: Phase::Measuring,
            action: Action::WindowRect { handle: s.target },
        },
    }
}

/// Go on with the reservation, or look at the window once the strip is held.
pub open spec fn go_on(s: StateModel, step: BarStep) -> Outcome {
    match step {
        BarStep::Ask { phase, action } => Outcome {
            state: s,
            phase: Phase::Bar { phase },
            action: Action::Bar { action },
        },
        BarStep::Ready { rect } => Outcome {
            state: s,
            phase: Phase::Placing { rect },
            action: Action::Placement { handle: s.target },
        },
    }
}

/// Ask for the title of the window.
pub open spec fn read_title(s: StateModel) -> Outcome {
    Outcome { state: s, phase: Phase::Titling, action: Action::Title { handle: s.target } }
}

/// Tell the user once that the window is pinned.
pub open spec fn announce(s: StateModel) -> Outcome {
    if s.notified {
        read_title(s)
    } else {
        Outcome {
            state: StateModel { notified: true, ..s },
            phase: Phase::Notifying,
            action: Action::Balloon { title: APP_NAME@, msg: pinned_msg(s.settings) },
        }
    }
}

/// Go on with the window that a search found. Where it found none, no strip is needed.
pub open spec fn adopt(s: StateModel, handle: usize) -> Outcome {
    let t = StateModel { target: handle, keep_w: 0, keep_h: 0, ..s };
    if handle != 0 {
        attend(t)
    } else {
        Outcome {
            state: appbar::released(t),
            phase: Phase::Releasing,
            action: Action::Release { release: appbar::release_of(t) },
        }
    }
}

/// One step of a round. It means something only for the events that `pin_accepts` admits.
pub open spec fn pin_next(s: StateModel, phase: Phase, event: Event) -> Outcome {
    match (phase, event) {
        (Phase::Idle, Event::Tick) => if s.target == 0 {
            search(s)
        } else {
            Outcome {
                state: s,
                phase: Phase::Checking,
                action: Action::IsWindow { handle: s.target },
            }
        },
        (Phase::Checking, Event::Flag { on: exists }) => if exists {
            attend(s)
        } else {
            search(s)
        },
        (Phase::Searching, Event::Windows { seen }) => adopt(
            s,
            windows::target(seen@, s.settings.window_match),
        ),
        (Phase::Releasing, Event::Done) => Outcome {
            state: s,
            phase: Phase::Idle,
            action: Action::SetTip { tip: waiting_tip(s.settings) },
        },
        (Phase::Iconic, Event::Flag { on: minimized }) => if minimized {
            restore(s, Phase::RestoringIconic)
        } else {
            check_zoom(s)
        },
        (Phase::RestoringIconic, Event::Done) => check_zoom(s),
        (Phase::Zoomed, Event::Flag { on: maximized }) => if maximized {
            restore(s, Phase::RestoringZoomed)
        } else {
            size_up(s)
        },
        (Phase::RestoringZoomed, Event::Done) => size_up(s),
        (Phase::Measuring, Event::Rect { rect }) => {
            let width = measured_width(rect) as i32;
            reserve(StateModel { keep_w: width, keep_h: rect.high() as i32, ..s }, width)
        },
        (Phase::Bar { phase: bar }, Event::Rect { rect }) => {
            let (t, step) = appbar::bar_next(s, bar, BarEvent::Rect { rect });
            go_on(t, step)
        },
        (Phase::Bar { phase: bar }, Event::Done) => {
            let (t, step) = appbar::bar_next(s, bar, BarEvent::Done);
            go_on(t, step)
        },
        (Phase::Placing { rect: strip }, Event::Placement { rect, ex_style }) => if needs_placing(
            s,
            rect,
            ex_style,
            strip,
        ) {
            Outcome { state: s, phase: Phase::Moving, action: put(s, strip) }
        } else {
            announce(s)
        },
        (Phase::Moving, Event::Done) => announce(s),
        (Phase::Notifying, Event::Done) => read_title(s),
        (Phase::Titling, Event::Title { title }) => Outcome {
            state: s,
            phase: Phase::Idle,
            action: Action::SetTip { tip: pinned_tip(title@) },
        },
        _ => search(s),
    }
}

/// Is the event an answer to what the phase waits for, and can coordinates hold what follows?
pub open spec fn pin_accepts(s: StateModel, phase: Phase, event: Event) -> bool {
    match (phase, event) {
        (Phase::Idle, Event::Tick) => true,
        (Phase::Checking, Event::Flag { .. }) => true,
        (Phase::Searching, Event::Windows { .. }) => true,
        (Phase::Releasing, Event::Done) => true,
        (Phase::Iconic, Event::Flag { .. }) => true,
        (Phase::RestoringIconic, Event::Done) => true,
        (Phase::Zoomed, Event::Flag { .. }) => true,
        (Phase::RestoringZoomed, Event::Done) => true,
        (Phase::Measuring, Event::Rect { rect }) => geometry::sides_fit(rect),
        (Phase::Bar { phase: bar }, Event::Rect { rect }) => appbar::bar_accepts(
            s,
            bar,
            BarEvent::Rect { rect },
        ),
        (Phase::Bar { phase: bar }, Event::Done) => appbar::bar_accepts(s, bar, BarEvent::Done),
        (Phase::Placing { rect: strip }, Event::Placement { rect, .. }) => place_fits(s, strip)
            && geometry::comparable(rect, place_in(s, strip)),
        (Phase::Moving, Event::Done) => true,
        (Phase::Notifying, Event::Done) => true,
        (Phase::Titling, Event::Title { .. }) => true,
        _ => false,
    }
}

impl State {
    /// Can the round go on with the event?
    pub fn accepts(&self, phase: Phase, event: &Event) -> (yes: bool)
        ensures
            yes == pin_accepts(self@, phase, *event),
    {
        match (phase, event) {
            (Phase::Idle, Event::Tick) => true,
            (Phase::Checking, Event::Flag { .. }) => true,
            (Phase::Searching, Event::Windows { .. }) => true,
            (Phase::Releasing, Event::Done) => true,
            (Phase::Iconic, Event::Flag { .. }) => true,
            (Phase::RestoringIconic, Event::Done) => true,
            (Phase::Zoomed, Event::Flag { .. }) => true,
            (Phase::RestoringZoomed, Event::Done) => true,
            (Phase::Measuring, Event::Rect { rect }) => geometry::has_sides(rect),
            (Phase::Bar { phase: bar }, Event::Rect { rect }) => self.appbar_accepts(
                bar,
                BarEvent::Rect { rect: *rect },
            ),
            (Phase::Bar { phase: bar }, Event::Done) => self.appbar_accepts(bar, BarEvent::Done),
            (Phase::Placing { rect: strip }, Event::Placement { rect, .. }) => match self.place(
                &strip,
            ) {
                Some(place) => geometry::compare_place(rect, &place).is_some(),
                None => false,
            },
            (Phase::Moving, Event::Done) => true,
            (Phase::Notifying, Event::Done) => true,
            (Phase::Titling, Event::Title { .. }) => true,
            _ => false,
        }
    }

    /// The place of the window in its strip, where coordinates can hold it.
    pub fn place(&self, strip: &Rect) -> (place: Option<Rect>)
        ensures
            place is Some <==> place_fits(self@, *strip),
            place matches Some(r) ==> r == place_in(self@, *strip) && geometry::sides_fit(r),
    {
        if self.settings.width_mode == 1 || self.settings.width_mode == 2 {
            if geometry::has_sides(strip) {
                Some(*strip)
            } else {
                None
            }
        } else {
            geometry::cut_end(strip, self.keep_h, self.settings.top)
        }
    }

    /// Goes on with the window that a search found, or with none if the handle is 0.
    pub fn adopt_target(&mut self, handle: usize) -> (next: (Phase, Action<String>))
        ensures
            adopt(old(self)@, handle) == (Outcome {
                state: final(self)@,
                phase: next.0,
                action: next.1@,
            }),
    {
        self.target = handle;
        self.keep_w = 0;
        self.keep_h = 0;
        if self.target != 0 {
            return (Phase::Iconic, Action::IsIconic { handle: self.target });
        }
        let release = self.appbar_release();
        (Phase::Releasing, Action::Release { release })
    }

    /// Finds out the width to reserve.
    fn size_up(&self) -> (next: (Phase, Action<String>))
        ensures
            size_up(self@) == (Outcome { state: self@, phase: next.0, action: next.1@ }),
    {
        let handle = self.target;
        let width: i32 = match self.settings.width_mode {
            1 => 420,
            2 => 520,
            _ => {
                if self.keep_w == 0 {
                    return (Phase::Measuring, Action::WindowRect { handle });
                }
                self.keep_w
            },
        };
        (Phase::Bar { phase: BarPhase::Begin { width } }, Action::MonitorRect { handle })
    }

    /// Goes on with the reservation, or looks at the window once the strip is held.
    fn go_on(&self, step: BarStep) -> (next: (Phase, Action<String>))
        ensures
            go_on(self@, step) == (Outcome { state: self@, phase: next.0, action: next.1@ }),
    {
        match step {
            BarStep::Ask { phase, action } => (Phase::Bar { phase }, Action::Bar { action }),
            BarStep::Ready { rect } => (
                Phase::Placing { rect },
                Action::Placement { handle: self.target },
            ),
        }
    }

    /// Tells the user once that the window is pinned.
    fn announce(&mut self) -> (next: (Phase, Action<String>))
        ensures
            announce(old(self)@) == (Outcome {
                state: final(self)@,
                phase: next.0,
                action: next.1@,
            }),
    {
        if self.notified {
            return (Phase::Titling, Action::Title { handle: self.target });
        }
        self.notified = true;
        let msg = self.settings.window_match.clone().concat(" ").concat(
            settings::side_name(self.settings.edge),
        ).concat(" kenarına sabitlendi. Diğer pencereler artık onun alanına giremez.");
        (Phase::Notifying, Action::Balloon { title: APP_NAME.to_owned(), msg })
    }

    /// Takes a round one step further.
    pub fn pin(&mut self, phase: Phase, event: Event) -> (next: (Phase, Action<String>))
        requires
            pin_accepts(old(self)@, phase, event),
        ensures
            pin_next(old(self)@, phase, event) == (Outcome {
                state: final(self)@,
                phase: next.0,
                action: next.1@,
            }),
            round_inv(old(self)@, phase) ==> round_inv(final(self)@, next.0),
    {
        proof {
            if round_inv(self@, phase) {
                steps_keep_the_state_sound(self@, phase, event);
            }
        }
        match (phase, event) {
            (Phase::Idle, Event::Tick) => if self.target == 0 {
                (Phase::Searching, Action::ListWindows)
            } else {
                (Phase::Checking, Action::IsWindow { handle: self.target })
            },
            (Phase::Checking, Event::Flag { on: exists_still }) => if exists_still {
                (Phase::Iconic, Action::IsIconic { handle: self.target })
            } else {
                (Phase::Searching, Action::ListWindows)
            },
            (Phase::Searching, Event::Windows { seen }) => {
                let found = windows::find_target(&seen, self.settings.window_match.as_str());
                self.adopt_target(found)
            },
            (Phase::Releasing, Event::Done) => {
                let wanted = text::truncate(self.settings.window_match.as_str(), 20);
                let tip = text::join("CornerPin · Bekleniyor: ", wanted.as_str());
                (Phase::Idle, Action::SetTip { tip })
            },
            (Phase::Iconic, Event::Flag { on: minimized }) => if minimized {
                (Phase::RestoringIconic, Action::Restore { handle: self.target })
            } else {
                (Phase::Zoomed, Action::IsZoomed { handle: self.target })
            },
            (Phase::RestoringIconic, Event::Done) => (
                Phase::Zoomed,
                Action::IsZoomed { handle: self.target },
            ),
            (Phase::Zoomed, Event::Flag { on: maximized }) => if maximized {
                (Phase::RestoringZoomed, Action::Restore { handle: self.target })
            } else {
                self.size_up()
            },
            (Phase::RestoringZoomed, Event::Done) => self.size_up(),
            (Phase::Measuring, Event::Rect { rect }) => {
                let w: i32 = rect.right - rect.left;
                let width: i32 = if w < MIN_WIDTH {
                    MIN_WIDTH
                } else {
                    w
                };
                self.keep_w = width;
                self.keep_h = rect.bottom - rect.top;
                (
                    Phase::Bar { phase: BarPhase::Begin { width } },
                    Action::MonitorRect { handle: self.target },
                )
            },
            (Phase::Bar { phase: bar }, Event::Rect { rect }) => {
                let step = self.appbar_ensure(bar, BarEvent::Rect { rect });
                self.go_on(step)
            },
            (Phase::Bar { phase: bar }, Event::Done) => {
                let step = self.appbar_ensure(bar, BarEvent::Done);
                self.go_on(step)
            },
            (Phase::Placing { rect: strip }, Event::Placement { rect, ex_style }) => {
                let place = match self.place(&strip) {
                    Some(r) => r,
                    None => strip,
                };
                let is_top = win32::has_style(ex_style, win32::WS_EX_TOPMOST);
                let want_top = self.settings.top_most;
                let off = match geometry::compare_place(&rect, &place) {
                    Some(b) => b,
                    None => false,
                };
                if off || is_top != want_top {
                    return (
                        Phase::Moving,
                        Action::Place {
                            handle: self.target,
                            topmost: want_top,
                            x: place.left,
                            y: place.top,
                            w: place.right - place.left,
                            h: place.bottom - place.top,
                        },
                    );
                }
                self.announce()
            },
            (Phase::Moving, Event::Done) => self.announce(),
            (Phase::Notifying, Event::Done) => (
                Phase::Titling,
                Action::Title { handle: self.target },
            ),
            (Phase::Titling, Event::Title { title }) => {
                let short = text::truncate(title.as_str(), 30);
                let tip = text::join("CornerPin · ", short.as_str());
                (Phase::Idle, Action::SetTip { tip })
            },
            _ => (Phase::Searching, Action::ListWindows),
        }
    }
}

/// What holds of the state while a round is in a phase: from the check on there is a window, it is
/// measured only while its width is not known, a strip is at least as wide as the least width, the
/// window belongs into the strip that is held, and in the end it is announced.
pub open spec fn round_inv(s: StateModel, phase: Phase) -> bool {
    &&& s.wf()
    &&& !(phase is Idle || phase is Searching || phase is Releasing) ==> s.target != 0
    &&& phase is Releasing ==> s.target == 0 && !s.bar_registered
    &&& phase is Measuring ==> known_width(s) is None
    &&& phase matches Phase::Bar { phase: bar } ==> {
        &&& appbar::bar_inv(s, bar)
        &&& bar matches BarPhase::Begin { width } ==> width >= MIN_WIDTH
        &&& bar matches BarPhase::Registering { width, .. } ==> width >= MIN_WIDTH
        &&& bar matches BarPhase::Querying { width } ==> width >= MIN_WIDTH
    }
    &&& phase is Placing || phase is Moving || phase is Notifying || phase is Titling
        ==> s.bar_registered && !s.bar_dirty
    &&& phase matches Phase::Placing { rect } ==> rect == s.bar_rect
    &&& phase is Notifying || phase is Titling ==> s.notified
}

/// Every step keeps the state sound.
pub proof fn steps_keep_the_state_sound(s: StateModel, phase: Phase, event: Event)
    requires
        pin_accepts(s, phase, event),
        round_inv(s, phase),
    ensures
        round_inv(pin_next(s, phase, event).state, pin_next(s, phase, event).phase),
{
}

/// A round changes nothing that the user has chosen, nor the bar, nor what the menu offered.
pub proof fn steps_leave_the_choices_alone(s: StateModel, phase: Phase, event: Event)
    requires
        pin_accepts(s, phase, event),
    ensures
        pin_next(s, phase, event).state.settings == s.settings,
        pin_next(s, phase, event).state.bar == s.bar,
        pin_next(s, phase, event).state.menu_windows == s.menu_windows,
{
}

/// How many answers a round still needs at most.
pub open spec fn rank(phase: Phase) -> nat {
    match phase {
        Phase::Idle => 0,
        Phase::Releasing => 1,
        Phase::Titling => 1,
        Phase::Notifying => 2,
        Phase::Moving => 3,
        Phase::Placing { .. } => 4,
        Phase::Bar { phase: bar } => 4 + appbar::bar_rank(bar),
        Phase::Measuring => 10,
        Phase::RestoringZoomed => 11,
        Phase::Zoomed => 12,
        Phase::RestoringIconic => 13,
        Phase::Iconic => 14,
        Phase::Searching => 15,
        Phase::Checking => 16,
    }
}

/// What a round comes to on a sequence of answers.
pub open spec fn run(o: Outcome, answers: Seq<Event>) -> Outcome
    decreases answers.len(),
{
    if answers.len() == 0 {
        o
    } else {
        run(pin_next(o.state, o.phase, answers[0]), answers.skip(1))
    }
}

/// The round is not over before the last of the answers, and each of them fits.
pub open spec fn answered(o: Outcome, answers: Seq<Event>) -> bool
    decreases answers.len(),
{
    answers.len() == 0 || (o.phase != Phase::Idle && pin_accepts(o.state, o.phase, answers[0])
        && answered(pin_next(o.state, o.phase, answers[0]), answers.skip(1)))
}

/// Every answer brings a round nearer to its end.
proof fn lemma_rank_falls(o: Outcome, answers: Seq<Event>)
    requires
        answered(o, answers),
    ensures
        answers.len() + rank(run(o, answers).phase) <= rank(o.phase),
    decreases answers.len(),
{
    if answers.len() > 0 {
        lemma_rank_falls(pin_next(o.state, o.phase, answers[0]), answers.skip(1));
    }
}

/// A round that has started is over after at most sixteen answers.
pub proof fn round_ends(s: StateModel, answers: Seq<Event>)
    requires
        answered(pin_next(s, Phase::Idle, Event::Tick), answers),
    ensures
        answers.len() <= 16,
        answers.len() == 16 ==> run(pin_next(s, Phase::Idle, Event::Tick), answers).phase
            == Phase::Idle,
{
    lemma_rank_falls(pin_next(s, Phase::Idle, Event::Tick), answers);
}

/// A round keeps the state sound from its start to wherever its answers lead.
pub proof fn rounds_keep_the_state_sound(s: StateModel, answers: Seq<Event>)
    requires
        s.wf(),
        answered(pin_next(s, Phase::Idle, Event::Tick), answers),
    ensures
        ({
            let o = run(pin_next(s, Phase::Idle, Event::Tick), answers);
            round_inv(o.state, o.phase)
        }),
{
    steps_keep_the_state_sound(s, Phase::Idle, Event::Tick);
    lemma_run_keeps_the_state_sound(pin_next(s, Phase::Idle, Event::Tick), answers);
}

proof fn lemma_run_keeps_the_state_sound(o: Outcome, answers: Seq<Event>)
    requires
        round_inv(o.state, o.phase),
        answered(o, answers),
    ensures
        round_inv(run(o, answers).state, run(o, answers).phase),
    decreases answers.len(),
{
    if answers.len() > 0 {
        steps_keep_the_state_sound(o.state, o.phase, answers[0]);
        lemma_run_keeps_the_state_sound(
            pin_next(o.state, o.phase, answers[0]),
            answers.skip(1),
        );
    }
}

/// Only the pinned window is ever moved, and only to its place in the strip that the shell granted.
pub proof fn window_goes_into_its_strip(s: StateModel, phase: Phase, event: Event)
    requires
        pin_accepts(s, phase, event),
        round_inv(s, phase),
    ensures
        pin_next(s, phase, event).action matches Action::Place { handle, x, y, w, h, .. } ==> {
            &&& handle == s.target && handle != 0
            &&& s.bar_registered && !s.bar_dirty
            &&& x == place_in(s, s.bar_rect).left && y == place_in(s, s.bar_rect).top
            &&& w == place_in(s, s.bar_rect).wide() && h == place_in(s, s.bar_rect).high()
        },
{
}

/// A window is announced once: a balloon is shown only for a window that was not announced, and
/// then it counts as announced for the rest of the round and the rounds to come.
pub proof fn announced_once(s: StateModel, phase: Phase, event: Event)
    requires
        pin_accepts(s, phase, event),
    ensures
        pin_next(s, phase, event).action is Balloon ==> !s.notified && pin_next(
            s,
            phase,
            event,
        ).state.notified,
        s.notified ==> pin_next(s, phase, event).state.notified,
{
}

/// A window is measured once: a size that is known is kept until the window is searched for
/// anew, and a window whose width is known is not measured.
pub proof fn measured_once(s: StateModel, phase: Phase, event: Event)
    requires
        pin_accepts(s, phase, event),
        round_inv(s, phase),
    ensures
        s.keep_w != 0 && !(phase is Searching) ==> pin_next(s, phase, event).state.keep_w
            == s.keep_w && pin_next(s, phase, event).state.keep_h == s.keep_h,
        pin_next(s, phase, event).action is WindowRect ==> known_width(s) is None,
        phase is Measuring ==> known_width(pin_next(s, phase, event).state) is Some,
{
}

/// No strip is narrower than the least width.
pub proof fn strips_are_wide_enough(s: StateModel)
    requires
        s.wf(),
    ensures
        known_width(s) matches Some(w) ==> w >= MIN_WIDTH,
        forall|r: Rect| measured_width(r) >= MIN_WIDTH,
{
}

/// The window stands in the chosen corner of its strip: it is as wide as the strip and stays inside
/// it. At full height it fills the strip; otherwise it has the height that was kept, if the strip
/// has room for it, at the upper end for an upper corner and at the lower end for a lower one.
pub proof fn window_stands_in_its_corner(s: StateModel, strip: Rect)
    requires
        geometry::sides_fit(strip),
        0 <= strip.high(),
        0 <= s.keep_h,
    ensures
        ({
            let place = place_in(s, strip);
            &&& place_fits(s, strip)
            &&& place.left == strip.left && place.right == strip.right
            &&& strip.top <= place.top && place.bottom <= strip.bottom
            &&& full_height(s.settings) ==> place == strip
            &&& !full_height(s.settings) && s.keep_h <= strip.high() ==> place.high() == s.keep_h
            &&& !full_height(s.settings) && s.keep_h > strip.high() ==> place == strip
            &&& s.settings.top ==> place.top == strip.top
            &&& !s.settings.top ==> place.bottom == strip.bottom
        }),
{
    geometry::end_lies_in_the_strip(strip, s.keep_h, s.settings.top);
}

/// A window that keeps its size is given the height that it was measured with, as far as the strip
/// goes, and a strip as wide as it was measured, unless that is below the least width.
pub proof fn current_size_is_kept(s: StateModel, r: Rect, strip: Rect)
    requires
        !full_height(s.settings),
        geometry::sides_fit(r),
        geometry::end_fits(strip, r.high() as i32, s.settings.top),
    ensures
        ({
            let o = pin_next(s, Phase::Measuring, Event::Rect { rect: r });
            &&& r.high() <= strip.high() ==> place_in(o.state, strip).high() == r.high()
            &&& r.wide() >= MIN_WIDTH ==> known_width(o.state) == Some(r.wide() as i32)
        }),
{
}

/// A window is moved exactly if it is off by more than a pixel or is not shown as wanted, and a
/// window that obeyed the move is left alone from then on.
pub proof fn placing_settles(s: StateModel, strip: Rect, r: Rect, ex_style: i32)
    requires
        place_fits(s, strip),
        geometry::comparable(r, place_in(s, strip)),
    ensures
        ({
            let place = place_in(s, strip);
            let is_top = win32::style_has(ex_style, win32::WS_EX_TOPMOST);
            let o = pin_next(s, Phase::Placing { rect: strip }, Event::Placement {
                rect: r,
                ex_style,
            });
            &&& geometry::misplaced(r, place) || is_top != s.settings.top_most ==> o.action == put(
                s,
                strip,
            )
            &&& r == place && is_top == s.settings.top_most ==> !(o.action is Place)
        }),
{
}

/// Where a round stands after its first `k` answers.
pub open spec fn at(o: Outcome, answers: Seq<Event>, k: int) -> Outcome {
    run(o, answers.take(k))
}

/// Once the window is found, the round stays with it.
proof fn lemma_target_stays(o: Outcome, answers: Seq<Event>)
    requires
        rank(o.phase) <= 14,
        answered(o, answers),
    ensures
        run(o, answers).state.target == o.state.target,
    decreases answers.len(),
{
    if answers.len() > 0 {
        lemma_target_stays(pin_next(o.state, o.phase, answers[0]), answers.skip(1));
    }
}

/// A round that is over found no window and holds no strip, or it went through the phase with a
/// given rank, if that is one that no round with a window leaves out.
proof fn lemma_round_visits(o: Outcome, answers: Seq<Event>, goal: nat) -> (k: int)
    requires
        goal == 14 || goal == 12 || goal == 4,
        rank(o.phase) >= goal,
        round_inv(o.state, o.phase),
        answered(o, answers),
        run(o, answers).phase == Phase::Idle,
    ensures
        ({
            let end = run(o, answers).state;
            ||| end.target == 0 && !end.bar_registered
            ||| 0 <= k < answers.len() && rank(at(o, answers, k).phase) == goal && at(
                o,
                answers,
                k,
            ).state.target == end.target && round_inv(
                at(o, answers, k).state,
                at(o, answers, k).phase,
            ) && pin_accepts(at(o, answers, k).state, at(o, answers, k).phase, answers[k]) && at(
                o,
                answers,
                k + 1,
            ) == pin_next(at(o, answers, k).state, at(o, answers, k).phase, answers[k])
        }),
    decreases answers.len(),
{
    assert(answers.len() > 0);
    let next = pin_next(o.state, o.phase, answers[0]);
    let rest = answers.skip(1);
    steps_keep_the_state_sound(o.state, o.phase, answers[0]);
    assert(at(o, answers, 0) == o) by {
        assert(answers.take(0).len() == 0);
    }
    assert forall|j: int| 0 < j <= answers.len() implies #[trigger] at(o, answers, j) == at(
        next,
        rest,
        j - 1,
    ) by {
        assert(answers.take(j)[0] == answers[0]);
        assert(answers.take(j).skip(1) =~= rest.take(j - 1));
    }
    if rank(o.phase) == goal {
        lemma_target_stays(o, answers);
        assert(at(o, answers, 1) == next) by {
            assert(rest.take(0).len() == 0);
            assert(at(o, answers, 1) == at(next, rest, 0));
        }
        0
    } else if next.phase is Releasing {
        reveal_with_fuel(answered, 3);
        reveal_with_fuel(run, 3);
        assert(rest.len() > 0);
        let over = pin_next(next.state, next.phase, rest[0]);
        assert(over.phase == Phase::Idle);
        assert(rest.skip(1).len() == 0);
        assert(run(o, answers) == over);
        0
    } else {
        let j = lemma_round_visits(next, rest, goal);
        if 0 <= j < rest.len() {
            assert(at(o, answers, j + 1) == at(next, rest, j));
            assert(at(o, answers, j + 2) == at(next, rest, j + 1));
            assert(answers[j + 1] == rest[j]);
        }
        j + 1
    }
}

/// What holds at the end of a round.
proof fn lemma_round_end(o: Outcome, answers: Seq<Event>)
    requires
        o.phase != Phase::Idle,
        round_inv(o.state, o.phase),
        answered(o, answers),
        run(o, answers).phase == Phase::Idle,
    ensures
        ({
            let end = run(o, answers).state;
            &&& end.target != 0 <==> end.bar_registered
            &&& end.target != 0 ==> !end.bar_dirty && end.notified
        }),
    decreases answers.len(),
{
    assert(answers.len() > 0);
    let next = pin_next(o.state, o.phase, answers[0]);
    steps_keep_the_state_sound(o.state, o.phase, answers[0]);
    if next.phase != Phase::Idle {
        lemma_round_end(next, answers.skip(1));
    } else {
        assert(answered(next, answers.skip(1)));
        assert(answers.skip(1).len() == 0);
        assert(run(o, answers) == next);
    }
}

/// At the end of a round a strip is held exactly if there is a window, and then nothing is left to
/// ask for and the window has been announced.
pub proof fn strip_goes_with_the_window(s: StateModel, answers: Seq<Event>)
    requires
        s.wf(),
        answered(pin_next(s, Phase::Idle, Event::Tick), answers),
        run(pin_next(s, Phase::Idle, Event::Tick), answers).phase == Phase::Idle,
    ensures
        ({
            let end = run(pin_next(s, Phase::Idle, Event::Tick), answers).state;
            &&& end.target != 0 <==> end.bar_registered
            &&& end.target != 0 ==> !end.bar_dirty && end.notified
        }),
{
    steps_keep_the_state_sound(s, Phase::Idle, Event::Tick);
    lemma_round_end(pin_next(s, Phase::Idle, Event::Tick), answers);
}

/// The balloons that a round shows, from an outcome on to wherever its answers lead.
pub open spec fn balloons(o: Outcome, answers: Seq<Event>) -> Seq<Action<Seq<char>>>
    decreases answers.len(),
{
    let first = if o.action is Balloon {
        seq![o.action]
    } else {
        Seq::empty()
    };
    if answers.len() == 0 {
        first
    } else {
        first + balloons(pin_next(o.state, o.phase, answers[0]), answers.skip(1))
    }
}

/// What a round still shows once it is under way.
proof fn lemma_round_announces(o: Outcome, answers: Seq<Event>)
    requires
        o.phase != Phase::Idle,
        round_inv(o.state, o.phase),
        answered(o, answers),
        run(o, answers).phase == Phase::Idle,
    ensures
        ({
            let end = run(o, answers).state;
            let next = pin_next(o.state, o.phase, answers[0]);
            &&& balloons(next, answers.skip(1)) == if end.target != 0 && !o.state.notified {
                seq![Action::Balloon { title: APP_NAME@, msg: pinned_msg(o.state.settings) }]
            } else {
                Seq::empty()
            }
            &&& end.notified == (o.state.notified || end.target != 0)
        }),
    decreases answers.len(),
{
    assert(answers.len() > 0);
    let next = pin_next(o.state, o.phase, answers[0]);
    let rest = answers.skip(1);
    steps_keep_the_state_sound(o.state, o.phase, answers[0]);
    steps_leave_the_choices_alone(o.state, o.phase, answers[0]);
    if next.phase != Phase::Idle {
        lemma_round_announces(next, rest);
        if next.action is Balloon {
            lemma_target_stays(next, rest);
        }
    } else {
        assert(answered(next, rest));
        assert(rest.len() == 0);
        assert(run(o, answers) == next);
    }
}

/// A round that comes to its end shows one balloon, that of the pinned window, exactly if it ends
/// with a window and none was announced before it; otherwise it shows none. Afterwards a window
/// counts as announced if one did before or the round ended with one.
pub proof fn round_announces_once(s: StateModel, answers: Seq<Event>)
    requires
        s.wf(),
        answered(pin_next(s, Phase::Idle, Event::Tick), answers),
        run(pin_next(s, Phase::Idle, Event::Tick), answers).phase == Phase::Idle,
    ensures
        ({
            let start = pin_next(s, Phase::Idle, Event::Tick);
            let end = run(start, answers).state;
            &&& balloons(start, answers) == if end.target != 0 && !s.notified {
                seq![Action::Balloon { title: APP_NAME@, msg: pinned_msg(s.settings) }]
            } else {
                Seq::empty()
            }
            &&& end.notified == (s.notified || end.target != 0)
        }),
{
    let start = pin_next(s, Phase::Idle, Event::Tick);
    steps_keep_the_state_sound(s, Phase::Idle, Event::Tick);
    lemma_round_announces(start, answers);
}

/// The watch in whole: every round that comes to its end either finds no window, and then no strip
/// is held; or it asks whether the window is minimized and whether it is maximized and restores it
/// if so, and it looks where the window is and moves it to its place in the strip that is held if
/// it is not there or not shown as wanted. This holds whatever the state was and whatever the
/// answers are.
pub proof fn every_round_brings_the_window_back(s: StateModel, answers: Seq<Event>)
    requires
        s.wf(),
        answered(pin_next(s, Phase::Idle, Event::Tick), answers),
        run(pin_next(s, Phase::Idle, Event::Tick), answers).phase == Phase::Idle,
    ensures
        ({
            let start = pin_next(s, Phase::Idle, Event::Tick);
            let end = run(start, answers).state;
            ||| end.target == 0 && !end.bar_registered
            ||| {
                &&& exists|k: int|
                    0 <= k < answers.len() && (#[trigger] at(start, answers, k)).phase
                        == Phase::Iconic && (answers[k] == (Event::Flag { on: true }) ==> at(
                        start,
                        answers,
                        k + 1,
                    ).action == (Action::<Seq<char>>::Restore { handle: end.target }))
                &&& exists|k: int|
                    0 <= k < answers.len() && (#[trigger] at(start, answers, k)).phase
                        == Phase::Zoomed && (answers[k] == (Event::Flag { on: true }) ==> at(
                        start,
                        answers,
                        k + 1,
                    ).action == (Action::<Seq<char>>::Restore { handle: end.target }))
                &&& exists|k: int|
                    0 <= k < answers.len() && (#[trigger] at(start, answers, k)).state.target
                        == end.target && placed_well(
                        at(start, answers, k),
                        answers[k],
                        at(start, answers, k + 1),
                    )
            }
        }),
{
    let start = pin_next(s, Phase::Idle, Event::Tick);
    steps_keep_the_state_sound(s, Phase::Idle, Event::Tick);
    let i = lemma_round_visits(start, answers, 14);
    let z = lemma_round_visits(start, answers, 12);
    let p = lemma_round_visits(start, answers, 4);
    let end = run(start, answers).state;
    if !(end.target == 0 && !end.bar_registered) {
        assert(at(start, answers, i).phase == Phase::Iconic);
        assert(at(start, answers, z).phase == Phase::Zoomed);
        assert(placed_well(at(start, answers, p), answers[p], at(start, answers, p + 1)));
    }
}

/// The round looks where the pinned window is, and moves it to its place in the strip that is held
/// if it is not there or not shown as wanted.
pub open spec fn placed_well(o: Outcome, answer: Event, next: Outcome) -> bool {
    let s = o.state;
    &&& o.phase == (Phase::Placing { rect: s.bar_rect })
    &&& s.target != 0 && s.bar_registered && !s.bar_dirty
    &&& answer matches Event::Placement { rect, ex_style } && (needs_placing(
        s,
        rect,
        ex_style,
        s.bar_rect,
    ) ==> next.action == put(s, s.bar_rect))
}

/// A round that goes on with one more answer.
pub open spec fn reply(o: Outcome, answer: Event) -> Outcome {
    pin_next(o.state, o.phase, answer)
}

/// A window that was minimized, maximized or moved away comes back: the round restores it and, if
/// it is not at its place in the strip or not shown as wanted, moves it there. Where all is in
/// order, nothing is moved, shown or asked from the shell, and the state stays as it is.
pub proof fn pinned_window_comes_back(
    s: StateModel,
    minimized: bool,
    maximized: bool,
    width: i32,
    monitor: Rect,
    r: Rect,
    ex_style: i32,
)
    requires
        s.target != 0,
        s.bar_registered,
        !s.bar_dirty,
        known_width(s) == Some(width),
        geometry::strip_fits(monitor, appbar::at_right(s.settings), width),
        s.bar_rect == geometry::strip(monitor, appbar::at_right(s.settings), width),
        place_fits(s, s.bar_rect),
        geometry::comparable(r, place_in(s, s.bar_rect)),
    ensures
        ({
            let start = pin_next(s, Phase::Idle, Event::Tick);
            let found = reply(start, Event::Flag { on: true });
            let iconic = reply(found, Event::Flag { on: minimized });
            let normal = if minimized {
                reply(iconic, Event::Done)
            } else {
                iconic
            };
            let zoomed = reply(normal, Event::Flag { on: maximized });
            let ready = if maximized {
                reply(zoomed, Event::Done)
            } else {
                zoomed
            };
            let held = reply(ready, Event::Rect { rect: monitor });
            let last = reply(held, Event::Placement { rect: r, ex_style });
            &&& start.action == Action::<Seq<char>>::IsWindow { handle: s.target }
            &&& found.action == Action::<Seq<char>>::IsIconic { handle: s.target }
            &&& minimized ==> iconic.action == Action::<Seq<char>>::Restore { handle: s.target }
            &&& normal.action == Action::<Seq<char>>::IsZoomed { handle: s.target }
            &&& maximized ==> zoomed.action == Action::<Seq<char>>::Restore { handle: s.target }
            &&& ready.action == Action::<Seq<char>>::MonitorRect { handle: s.target }
            &&& held.state == s
            &&& held.action == Action::<Seq<char>>::Placement { handle: s.target }
            &&& needs_placing(s, r, ex_style, s.bar_rect) ==> last.state == s && last.action == put(
                s,
                s.bar_rect,
            )
            &&& !needs_placing(s, r, ex_style, s.bar_rect) && s.notified ==> last.state == s
                && last.action == Action::<Seq<char>>::Title { handle: s.target }
        }),
{
}

/// The first round for a window that keeps its own size: it is found, measured, and announced; a
/// strip of its width is registered, proposed, taken and filled by the bar; and the window is
/// moved, with as much of its height as there is room for, to the chosen corner of what the shell
/// granted.
pub proof fn first_round_pins_the_window(
    s: StateModel,
    seen: Vec<Sighting>,
    measured: Rect,
    monitor: Rect,
    free: Rect,
    granted: Rect,
    r: Rect,
    ex_style: i32,
    title: String,
)
    requires
        s.target == 0,
        !s.bar_registered,
        !s.notified,
        s.settings.width_mode != 1 && s.settings.width_mode != 2,
        windows::target(seen@, s.settings.window_match) != 0,
        geometry::sides_fit(measured),
        geometry::strip_fits(
            monitor,
            appbar::at_right(s.settings),
            measured_width(measured) as i32,
        ),
        geometry::strip_fits(free, appbar::at_right(s.settings), measured_width(measured) as i32),
        geometry::end_fits(granted, measured.high() as i32, s.settings.top),
        geometry::comparable(
            r,
            geometry::end_of(granted, measured.high() as i32, s.settings.top),
        ),
        geometry::misplaced(
            r,
            geometry::end_of(granted, measured.high() as i32, s.settings.top),
        ) || win32::style_has(ex_style, win32::WS_EX_TOPMOST) != s.settings.top_most,
    ensures
        ({
            let handle = windows::target(seen@, s.settings.window_match);
            let width = measured_width(measured) as i32;
            let right = appbar::at_right(s.settings);
            let edge = appbar::shell_edge(s.settings);
            let place = geometry::end_of(granted, measured.high() as i32, s.settings.top);
            let start = pin_next(s, Phase::Idle, Event::Tick);
            let found = reply(start, Event::Windows { seen });
            let iconic = reply(found, Event::Flag { on: false });
            let zoomed = reply(iconic, Event::Flag { on: false });
            let sized = reply(zoomed, Event::Rect { rect: measured });
            let wanted = reply(sized, Event::Rect { rect: monitor });
            let known = reply(wanted, Event::Done);
            let asked = reply(known, Event::Rect { rect: free });
            let taken = reply(asked, Event::Rect { rect: granted });
            let filled = reply(taken, Event::Done);
            let placed = reply(filled, Event::Placement { rect: r, ex_style });
            let told = reply(placed, Event::Done);
            let named = reply(told, Event::Done);
            let end = reply(named, Event::Title { title });
            &&& start.action == Action::<Seq<char>>::ListWindows
            &&& zoomed.action == Action::<Seq<char>>::WindowRect { handle }
            &&& sized.action == Action::<Seq<char>>::MonitorRect { handle }
            &&& wanted.action == Action::<Seq<char>>::Bar {
                action: BarAction::Register { bar: s.bar },
            }
            &&& known.action == Action::<Seq<char>>::Bar {
                action: BarAction::QueryPos {
                    bar: s.bar,
                    edge,
                    rect: geometry::strip(monitor, right, width),
                },
            }
            &&& asked.action == Action::<Seq<char>>::Bar {
                action: BarAction::SetPos {
                    bar: s.bar,
                    edge,
                    rect: geometry::strip(free, right, width),
                },
            }
            &&& taken.action == Action::<Seq<char>>::Bar {
                action: BarAction::Move {
                    bar: s.bar,
                    x: granted.left,
                    y: granted.top,
                    w: granted.wide() as i32,
                    h: granted.high() as i32,
                },
            }
            &&& placed.action == Action::<Seq<char>>::Place {
                handle,
                topmost: s.settings.top_most,
                x: place.left,
                y: place.top,
                w: place.wide() as i32,
                h: place.high() as i32,
            }
            &&& told.action == Action::Balloon { title: APP_NAME@, msg: pinned_msg(s.settings) }
            &&& end.action == Action::SetTip { tip: pinned_tip(title@) }
            &&& end.phase == Phase::Idle
            &&& end.state == StateModel {
                target: handle,
                keep_w: width,
                keep_h: measured.high() as i32,
                bar_registered: true,
                bar_rect: granted,
                bar_dirty: false,
                notified: true,
                ..s
            }
        }),
{
}

/// Where the window is gone and no other one is meant, the strip is given up, no window is
/// remembered, and the tray icon says what is waited for.
pub proof fn lost_window_frees_the_strip(s: StateModel, seen: Vec<Sighting>)
    requires
        s.target != 0,
        windows::target(seen@, s.settings.window_match) == 0,
    ensures
        ({
            let start = pin_next(s, Phase::Idle, Event::Tick);
            let gone = reply(start, Event::Flag { on: false });
            let none = reply(gone, Event::Windows { seen });
            let end = reply(none, Event::Done);
            &&& gone.action == Action::<Seq<char>>::ListWindows
            &&& none.action == Action::<Seq<char>>::Release { release: appbar::release_of(s) }
            &&& none.state == appbar::released(StateModel {
                target: 0,
                keep_w: 0,
                keep_h: 0,
                ..s
            })
            &&& end.state == none.state
            &&& end.phase == Phase::Idle
            &&& end.action == Action::SetTip { tip: waiting_tip(s.settings) }
        }),
{
}

/// The texts of the tray icon are short enough to be shown whole in its hundred and twenty-eight
/// units.
pub proof fn tips_are_shown_whole(s: SettingsModel, title: Seq<char>)
    ensures
        utf16::units(waiting_tip(s)).len() < 128,
        utf16::units(pinned_tip(title)).len() < 128,
{
    reveal_strlit("CornerPin · Bekleniyor: ");
    reveal_strlit("CornerPin · ");
    utf16::units_per_char(waiting_tip(s));
    utf16::units_per_char(pinned_tip(title));
}

/// A round starts by asking whether the pinned window still exists, or by looking at all windows
/// where none is pinned; one that is gone is looked for too, and one that exists is seen to.
pub proof fn round_starts_with_the_window(s: StateModel, on: bool)
    ensures
        ({
            let start = pin_next(s, Phase::Idle, Event::Tick);
            let checked = pin_next(s, Phase::Checking, Event::Flag { on });
            &&& pin_accepts(s, Phase::Idle, Event::Tick)
            &&& start.state == s
            &&& s.target == 0 ==> start.phase == Phase::Searching && start.action
                == Action::<Seq<char>>::ListWindows
            &&& s.target != 0 ==> start.phase == Phase::Checking && start.action == Action::<
                Seq<char>,
            >::IsWindow { handle: s.target }
            &&& pin_accepts(s, Phase::Checking, Event::Flag { on })
            &&& checked.state == s
            &&& !on ==> checked.phase == Phase::Searching && checked.action == Action::<
                Seq<char>,
            >::ListWindows
            &&& on ==> checked.phase == Phase::Iconic && checked.action == Action::<
                Seq<char>,
            >::IsIconic { handle: s.target }
        }),
{
}

/// What a search finds is pinned from then on and has not been measured. Where it finds none, the
/// strip is given up and the tray icon says what is waited for, by its first twenty characters.
/// Nothing else changes.
pub proof fn search_decides_what_is_pinned(s: StateModel, seen: Vec<Sighting>)
    ensures
        ({
            let found = windows::target(seen@, s.settings.window_match);
            let o = pin_next(s, Phase::Searching, Event::Windows { seen });
            let end = pin_next(o.state, o.phase, Event::Done);
            let m = s.settings.window_match;
            &&& pin_accepts(s, Phase::Searching, Event::Windows { seen })
            &&& o.state.target == found && o.state.keep_w == 0 && o.state.keep_h == 0
            &&& o.state.settings == s.settings && o.state.bar == s.bar
            &&& o.state.notified == s.notified && o.state.menu_windows == s.menu_windows
            &&& found != 0 ==> {
                &&& o.state.bar_registered == s.bar_registered
                &&& o.state.bar_rect == s.bar_rect && o.state.bar_dirty == s.bar_dirty
                &&& o.phase == Phase::Iconic
                &&& o.action == Action::<Seq<char>>::IsIconic { handle: found }
            }
            &&& found == 0 ==> {
                &&& !o.state.bar_registered && o.state.bar_dirty
                &&& o.state.bar_rect == Rect { left: 0, top: 0, right: 0, bottom: 0 }
                &&& o.action == Action::<Seq<char>>::Release {
                    release: Release { bar: s.bar, remove: s.bar_registered, hide: s.bar != 0 },
                }
                &&& pin_accepts(o.state, o.phase, Event::Done)
                &&& end.state == o.state && end.phase == Phase::Idle
                &&& m.len() <= 20 ==> end.action == Action::SetTip {
                    tip: "CornerPin · Bekleniyor: "@ + m,
                }
                &&& m.len() > 20 ==> end.action == Action::SetTip {
                    tip: "CornerPin · Bekleniyor: "@ + m.take(20),
                }
            }
        }),
{
    assert(s.settings.window_match.len() <= 20 ==> text::cut(s.settings.window_match, 20)
        == s.settings.window_match);
}

/// A minimized window is restored, and a maximized one is; a window that is neither is not. The
/// state stays as it is.
pub proof fn window_is_restored_if_need_be(s: StateModel, on: bool)
    ensures
        ({
            let iconic = pin_next(s, Phase::Iconic, Event::Flag { on });
            let back = pin_next(s, iconic.phase, Event::Done);
            let zoomed = pin_next(s, Phase::Zoomed, Event::Flag { on });
            &&& pin_accepts(s, Phase::Iconic, Event::Flag { on })
            &&& pin_accepts(s, Phase::Zoomed, Event::Flag { on })
            &&& iconic.state == s && zoomed.state == s
            &&& on ==> {
                &&& iconic.action == Action::<Seq<char>>::Restore { handle: s.target }
                &&& pin_accepts(s, iconic.phase, Event::Done)
                &&& back.state == s && back.phase == Phase::Zoomed
                &&& back.action == Action::<Seq<char>>::IsZoomed { handle: s.target }
                &&& zoomed.action == Action::<Seq<char>>::Restore { handle: s.target }
                &&& zoomed.phase == Phase::RestoringZoomed
                &&& pin_accepts(s, zoomed.phase, Event::Done)
            }
            &&& !on ==> {
                &&& iconic.phase == Phase::Zoomed
                &&& iconic.action == Action::<Seq<char>>::IsZoomed { handle: s.target }
                &&& !(zoomed.action is Restore)
                &&& zoomed == pin_next(s, Phase::RestoringZoomed, Event::Done)
            }
        }),
{
}

/// The second size reserves 420 pixels and the third one 520, whatever was measured; every other
/// size reserves what was measured, and measures the window where nothing was. What is measured is
/// the width, but no less than 280 pixels, and the height.
pub proof fn size_decides_the_width(s: StateModel, r: Rect)
    requires
        -0x8000_0000 <= r.right - r.left <= 0x7FFF_FFFF,
        -0x8000_0000 <= r.bottom - r.top <= 0x7FFF_FFFF,
    ensures
        ({
            let o = pin_next(s, Phase::RestoringZoomed, Event::Done);
            let mode = s.settings.width_mode;
            let own = mode != 1 && mode != 2;
            let sized = pin_next(s, Phase::Measuring, Event::Rect { rect: r });
            let w = r.right - r.left;
            let kept = if w >= 280 {
                w
            } else {
                280
            };
            &&& pin_next(s, Phase::Zoomed, Event::Flag { on: false }) == o
            &&& o.state == s
            &&& mode == 1 ==> o.phase == (Phase::Bar { phase: BarPhase::Begin { width: 420 } })
            &&& mode == 2 ==> o.phase == (Phase::Bar { phase: BarPhase::Begin { width: 520 } })
            &&& own && s.keep_w != 0 ==> o.phase == (Phase::Bar {
                phase: BarPhase::Begin { width: s.keep_w },
            })
            &&& own && s.keep_w == 0 ==> o.phase == Phase::Measuring && o.action == Action::<
                Seq<char>,
            >::WindowRect { handle: s.target }
            &&& !own || s.keep_w != 0 ==> o.action == Action::<Seq<char>>::MonitorRect {
                handle: s.target,
            }
            &&& pin_accepts(s, Phase::Measuring, Event::Rect { rect: r })
            &&& sized.state == StateModel {
                keep_w: kept as i32,
                keep_h: (r.bottom - r.top) as i32,
                ..s
            }
            &&& sized.phase == (Phase::Bar { phase: BarPhase::Begin { width: kept as i32 } })
            &&& sized.action == Action::<Seq<char>>::MonitorRect { handle: s.target }
        }),
{
}

/// After the command of the second size the strip that is proposed to the shell, and the one that is
/// taken, is 420 pixels wide; after that of the third one, 520.
pub proof fn chosen_size_is_reserved(s: StateModel, cmd: usize, monitor: Rect, free: Rect)
    requires
        cmd == 1302 || cmd == 1303,
        s.bar_registered,
        -0x4000_0000 <= monitor.left <= 0x4000_0000 && -0x4000_0000 <= monitor.right <= 0x4000_0000,
        -0x4000_0000 <= free.left <= 0x4000_0000 && -0x4000_0000 <= free.right <= 0x4000_0000,
    ensures
        ({
            let t = commands::after_command(s, cmd);
            let wanted = if cmd == 1302 {
                420int
            } else {
                520
            };
            let sized = pin_next(t, Phase::Zoomed, Event::Flag { on: false });
            let asked = pin_next(sized.state, sized.phase, Event::Rect { rect: monitor });
            let taken = pin_next(asked.state, asked.phase, Event::Rect { rect: free });
            &&& pin_accepts(sized.state, sized.phase, Event::Rect { rect: monitor })
            &&& asked.action matches Action::Bar { action: BarAction::QueryPos { rect, .. } }
                && rect.right - rect.left == wanted
            &&& pin_accepts(asked.state, asked.phase, Event::Rect { rect: free })
            &&& taken.action matches Action::Bar { action: BarAction::SetPos { rect, .. } }
                && rect.right - rect.left == wanted
        }),
{
    let t = commands::after_command(s, cmd);
    let width: i32 = if cmd == 1302 {
        420
    } else {
        520
    };
    commands::size_commands_choose_a_size(s, cmd);
    size_decides_the_width(t, geometry::zero_rect());
    appbar::proposed_strip_lies_at_the_chosen_edge(t, width, monitor);
    appbar::taken_strip_lies_at_the_chosen_edge(t, width, free, geometry::zero_rect());
}

/// The round goes through the reservation as that goes on: it hands on what is asked for, and once
/// the strip is held it asks where the window is.
pub proof fn round_goes_through_the_reservation(s: StateModel, bar: BarPhase, rect: Rect)
    ensures
        ({
            let event = BarEvent::Rect { rect };
            let (t, step) = appbar::bar_next(s, bar, event);
            let o = pin_next(s, Phase::Bar { phase: bar }, Event::Rect { rect });
            let (t2, step2) = appbar::bar_next(s, bar, BarEvent::Done);
            let o2 = pin_next(s, Phase::Bar { phase: bar }, Event::Done);
            &&& pin_accepts(s, Phase::Bar { phase: bar }, Event::Rect { rect })
                <==> appbar::bar_accepts(s, bar, event)
            &&& pin_accepts(s, Phase::Bar { phase: bar }, Event::Done) <==> appbar::bar_accepts(
                s,
                bar,
                BarEvent::Done,
            )
            &&& o.state == t && o2.state == t2
            &&& step matches BarStep::Ask { phase, action } ==> o.phase == (Phase::Bar { phase })
                && o.action == (Action::<Seq<char>>::Bar { action })
            &&& step matches BarStep::Ready { rect: held } ==> o.phase == (Phase::Placing {
                rect: held,
            }) && o.action == (Action::<Seq<char>>::Placement { handle: s.target })
            &&& step2 matches BarStep::Ask { phase, action } ==> o2.phase == (Phase::Bar { phase })
                && o2.action == (Action::<Seq<char>>::Bar { action })
            &&& step2 matches BarStep::Ready { rect: held } ==> o2.phase == (Phase::Placing {
                rect: held,
            }) && o2.action == (Action::<Seq<char>>::Placement { handle: s.target })
        }),
{
}

/// A window at full height belongs to all of its strip. One that keeps its size is as wide as the
/// strip and as high as it was, or as the strip if that is less; it touches the upper side for an
/// upper corner and the lower side for a lower one.
pub proof fn corner_decides_the_place(s: StateModel, strip: Rect)
    requires
        0 <= s.keep_h,
        0 <= strip.bottom - strip.top <= 0x7FFF_FFFF,
        -0x8000_0000 <= strip.right - strip.left <= 0x7FFF_FFFF,
    ensures
        ({
            let mode = s.settings.width_mode;
            let all = strip.bottom - strip.top;
            let place = place_in(s, strip);
            &&& place_fits(s, strip)
            &&& mode == 1 || mode == 2 ==> place == strip
            &&& place.left == strip.left && place.right == strip.right
            &&& s.settings.top ==> place.top == strip.top
            &&& !s.settings.top ==> place.bottom == strip.bottom
            &&& mode != 1 && mode != 2 && s.keep_h <= all ==> place.bottom - place.top == s.keep_h
            &&& mode != 1 && mode != 2 && s.keep_h > all ==> place.bottom - place.top == all
        }),
{
}

/// Nothing but the size, the kept height and the end that are chosen decides the place in a strip:
/// states that agree in them have the same place there, and for the two sizes at full height not
/// even height and end count.
pub proof fn place_depends_on_size_and_end(s: StateModel, t: StateModel, strip: Rect)
    requires
        s.settings.width_mode == t.settings.width_mode,
        s.settings.width_mode == 1 || s.settings.width_mode == 2 || (s.keep_h == t.keep_h
            && s.settings.top == t.settings.top),
    ensures
        place_in(s, strip) == place_in(t, strip),
        place_fits(s, strip) == place_fits(t, strip),
        s.settings.width_mode == 1 || s.settings.width_mode == 2 ==> place_in(s, strip) == strip,
        s.settings.width_mode != 1 && s.settings.width_mode != 2 ==> place_in(s, strip)
            == geometry::end_of(strip, s.keep_h, s.settings.top) && place_fits(s, strip)
            == geometry::end_fits(strip, s.keep_h, s.settings.top),
        s.settings.width_mode == 1 || s.settings.width_mode == 2 ==> (place_fits(s, strip)
            <==> -0x8000_0000 <= strip.right - strip.left <= 0x7FFF_FFFF && -0x8000_0000
            <= strip.bottom - strip.top <= 0x7FFF_FFFF),
        forall|r: Rect, ex_style: i32| #[trigger]
            pin_accepts(s, Phase::Placing { rect: strip }, Event::Placement { rect: r, ex_style })
                <==> place_fits(s, strip) && geometry::comparable(r, place_in(s, strip)),
{
}

/// A window whose left side, upper side, width or height is off by two pixels or more in either
/// direction is moved, and one that is above the others or not, against what is wanted, is too; a
/// window that is off by one pixel at most and shown as wanted is not moved. It is moved exactly to
/// its place, and shown as wanted.
pub proof fn window_that_is_off_is_moved(s: StateModel, strip: Rect, r: Rect, ex_style: i32)
    ensures
        ({
            let place = place_in(s, strip);
            let o = pin_next(
                s,
                Phase::Placing { rect: strip },
                Event::Placement { rect: r, ex_style },
            );
            let dw = (r.right - r.left) - (place.right - place.left);
            let dh = (r.bottom - r.top) - (place.bottom - place.top);
            let above = ex_style & 0x8 != 0;
            &&& r.left >= place.left + 2 || r.left <= place.left - 2 ==> o.action is Place
            &&& r.top >= place.top + 2 || r.top <= place.top - 2 ==> o.action is Place
            &&& dw >= 2 || dw <= -2 ==> o.action is Place
            &&& dh >= 2 || dh <= -2 ==> o.action is Place
            &&& above != s.settings.top_most ==> o.action is Place
            &&& !(o.action is Place) ==> {
                &&& -1 <= r.left - place.left <= 1 && -1 <= r.top - place.top <= 1
                &&& -1 <= dw <= 1 && -1 <= dh <= 1
                &&& above == s.settings.top_most
            }
            &&& -1 <= r.left - place.left <= 1 && -1 <= r.top - place.top <= 1 && -1 <= dw <= 1
                && -1 <= dh <= 1 && above == s.settings.top_most ==> !(o.action is Place)
            &&& o.action matches Action::Place { handle, topmost, x, y, w, h } ==> {
                &&& handle == s.target && topmost == s.settings.top_most
                &&& x == place.left && y == place.top
                &&& -0x8000_0000 <= place.right - place.left <= 0x7FFF_FFFF ==> w == place.right
                    - place.left
                &&& -0x8000_0000 <= place.bottom - place.top <= 0x7FFF_FFFF ==> h == place.bottom
                    - place.top
                &&& o.state == s && o.phase == Phase::Moving
            }
        }),
{
    geometry::one_pixel_off_is_in_place(r, place_in(s, strip));
    win32::other_bits_do_not_count(ex_style, 0);
}

/// The window at full height: it is moved back to the strip wherever it was dragged or however it
/// was resized, by two pixels or more.
pub proof fn dragged_window_goes_back_to_the_strip(
    s: StateModel,
    strip: Rect,
    r: Rect,
    ex_style: i32,
)
    requires
        s.settings.width_mode == 1 || s.settings.width_mode == 2,
        0 <= strip.bottom - strip.top <= 0x7FFF_FFFF,
        -0x8000_0000 <= strip.right - strip.left <= 0x7FFF_FFFF,
        r.left >= strip.left + 2 || r.left <= strip.left - 2 || r.top >= strip.top + 2 || r.top
            <= strip.top - 2 || r.right - r.left >= strip.right - strip.left + 2 || r.right
            - r.left <= strip.right - strip.left - 2 || r.bottom - r.top >= strip.bottom
            - strip.top + 2 || r.bottom - r.top <= strip.bottom - strip.top - 2,
    ensures
        pin_next(
            s,
            Phase::Placing { rect: strip },
            Event::Placement { rect: r, ex_style },
        ).action == (Action::<Seq<char>>::Place {
            handle: s.target,
            topmost: s.settings.top_most,
            x: strip.left,
            y: strip.top,
            w: (strip.right - strip.left) as i32,
            h: (strip.bottom - strip.top) as i32,
        }),
{
    geometry::one_pixel_off_is_in_place(r, strip);
}

/// The round can go on wherever the window is: with any rectangle on screens of up to a quarter of
/// a billion pixels.
pub proof fn placement_is_accepted_on_any_screen(s: StateModel, strip: Rect, r: Rect, ex_style: i32)
    requires
        0 <= s.keep_h,
        strip.left <= strip.right && strip.top <= strip.bottom,
        -0x1000_0000 <= strip.left && strip.right <= 0x1000_0000,
        -0x1000_0000 <= strip.top && strip.bottom <= 0x1000_0000,
        -0x1000_0000 <= r.left <= 0x1000_0000 && -0x1000_0000 <= r.right <= 0x1000_0000,
        -0x1000_0000 <= r.top <= 0x1000_0000 && -0x1000_0000 <= r.bottom <= 0x1000_0000,
    ensures
        pin_accepts(s, Phase::Placing { rect: strip }, Event::Placement { rect: r, ex_style }),
{
    corner_decides_the_place(s, strip);
    geometry::places_within_reach_are_compared(r, place_in(s, strip));
}

/// Once the window is at its place, the user is told of it if that was not done before: which window
/// it is and at which edge, right for edge 0 and left for every other. Then the title is read, and
/// the tray icon shows its first thirty characters. Nothing but the announcement is remembered.
pub proof fn round_ends_with_the_title(s: StateModel, title: String)
    ensures
        ({
            let o = pin_next(s, Phase::Moving, Event::Done);
            let told = pin_next(o.state, Phase::Notifying, Event::Done);
            let end = pin_next(s, Phase::Titling, Event::Title { title });
            let side = if s.settings.edge == 0 {
                "Sağ"@
            } else {
                "Sol"@
            };
            &&& pin_accepts(s, Phase::Moving, Event::Done)
            &&& o.state == StateModel { notified: true, ..s }
            &&& s.notified ==> o.phase == Phase::Titling && o.action == Action::<
                Seq<char>,
            >::Title { handle: s.target }
            &&& !s.notified ==> o.phase == Phase::Notifying && o.action == Action::Balloon {
                title: "CornerPin"@,
                msg: s.settings.window_match + " "@ + side
                    + " kenarına sabitlendi. Diğer pencereler artık onun alanına giremez."@,
            }
            &&& pin_accepts(o.state, Phase::Notifying, Event::Done)
            &&& told.state == o.state && told.phase == Phase::Titling
            &&& told.action == Action::<Seq<char>>::Title { handle: s.target }
            &&& pin_accepts(s, Phase::Titling, Event::Title { title })
            &&& end.state == s && end.phase == Phase::Idle
            &&& title@.len() <= 30 ==> end.action == Action::SetTip {
                tip: "CornerPin · "@ + title@,
            }
            &&& title@.len() > 30 ==> end.action == Action::SetTip {
                tip: "CornerPin · "@ + title@.take(30),
            }
        }),
{
}

/// A window that is at its place and shown as wanted is announced just as one that was moved there.
pub proof fn moved_or_not_the_round_goes_on(s: StateModel, strip: Rect, r: Rect, ex_style: i32)
    ensures
        ({
            let o = pin_next(
                s,
                Phase::Placing { rect: strip },
                Event::Placement { rect: r, ex_style },
            );
            if o.action is Place {
                o.state == s && o.phase == Phase::Moving
            } else {
                o == pin_next(s, Phase::Moving, Event::Done)
            }
        }),
{
}

/// An action as a value is the action, with its texts.
pub proof fn action_shows_what_it_holds(a: Action<String>)
    ensures
        a matches Action::IsWindow { handle } ==> a@ == (Action::<Seq<char>>::IsWindow { handle }),
        a is ListWindows ==> a@ is ListWindows,
        a matches Action::Release { release } ==> a@ == (Action::<Seq<char>>::Release { release }),
        a matches Action::IsIconic { handle } ==> a@ == (Action::<Seq<char>>::IsIconic { handle }),
        a matches Action::IsZoomed { handle } ==> a@ == (Action::<Seq<char>>::IsZoomed { handle }),
        a matches Action::Restore { handle } ==> a@ == (Action::<Seq<char>>::Restore { handle }),
        a matches Action::WindowRect { handle } ==> a@ == (Action::<Seq<char>>::WindowRect {
            handle,
        }),
        a matches Action::MonitorRect { handle } ==> a@ == (Action::<Seq<char>>::MonitorRect {
            handle,
        }),
        a matches Action::Bar { action } ==> a@ == (Action::<Seq<char>>::Bar { action }),
        a matches Action::Placement { handle } ==> a@ == (Action::<Seq<char>>::Placement {
            handle,
        }),
        a matches Action::Place { handle, topmost, x, y, w, h } ==> a@ == (Action::<
            Seq<char>,
        >::Place { handle, topmost, x, y, w, h }),
        a matches Action::Balloon { title, msg } ==> a@ == (Action::Balloon {
            title: title@,
            msg: msg@,
        }),
        a matches Action::Title { handle } ==> a@ == (Action::<Seq<char>>::Title { handle }),
        a matches Action::SetTip { tip } ==> a@ == (Action::SetTip { tip: tip@ }),
{
}

} // verus!
