//! Reserving a strip at an edge of the screen, as the task bar does. Other windows that are
//! maximized or snapped stay out of it.

use crate::commands;
use crate::geometry;
use crate::geometry::Rect;
use crate::settings::SettingsModel;
use crate::state::{State, StateModel};
use crate::win32;
use vstd::prelude::*;

verus! {

/// What the reservation waits for.
#[derive(Clone, Copy, Debug, PartialEq, Eq, Structural)]
pub enum BarPhase {
    /// The rectangle of the monitor.
    Begin { width: i32 },
    /// The end of the registration.
    Registering { rect: Rect, width: i32 },
    /// The free part of the strip that was proposed.
    Querying { width: i32 },
    /// The strip that is granted.
    Setting,
    /// The end of the move of the bar into the strip.
    Moving { rect: Rect },
}

/// What the shell or the window system answers.
#[derive(Clone, Copy, Debug, PartialEq, Eq, Structural)]
pub enum BarEvent {
    Rect { rect: Rect },
    Done,
}

/// What has to be done next for the reservation.
#[derive(Clone, Copy, Debug, PartialEq, Eq, Structural)]
pub enum BarAction {
    /// Make the bar known to the shell.
    Register { bar: usize },
    /// Ask which part of the strip is free.
    QueryPos { bar: usize, edge: u32, rect: Rect },
    /// Take the strip.
    SetPos { bar: usize, edge: u32, rect: Rect },
    /// Move the bar, show it above the other windows, and do not activate it.
    Move { bar: usize, x: i32, y: i32, w: i32, h: i32 },
}

/// Where the reservation stands: something has to be done, or the strip is held.
#[derive(Clone, Copy, Debug, PartialEq, Eq, Structural)]
pub enum BarStep {
    Ask { phase: BarPhase, action: BarAction },
    Ready { rect: Rect },
}

/// The strip goes to the right edge.
pub open spec fn at_right(s: SettingsModel) -> bool {
    s.edge == 0
}

/// The edge in the terms of the shell.
pub open spec fn shell_edge(s: SettingsModel) -> u32 {
    if at_right(s) {
        win32::ABE_RIGHT
    } else {
        win32::ABE_LEFT
    }
}

/// Propose a strip to the shell.
pub open spec fn propose(s: StateModel, rect: Rect, width: i32) -> BarStep {
    BarStep::Ask {
        phase: BarPhase::Querying { width },
        action: BarAction::QueryPos { bar: s.bar, edge: shell_edge(s.settings), rect },
    }
}

/// One step of the reservation: the state and the step that follow on an answer.
///
/// The wanted strip is cut out of the monitor. A bar that the shell does not know is registered
/// first. A strip that is held already is kept, unless it has to be asked for again. Otherwise it
/// is proposed; of the part that is free, the strip with the same width is taken; and the bar is
/// moved into what is granted. It means something only for the events that `bar_accepts` admits.
pub open spec fn bar_next(s: StateModel, phase: BarPhase, event: BarEvent) -> (StateModel, BarStep) {
    match (phase, event) {
        (BarPhase::Begin { width }, BarEvent::Rect { rect: monitor }) => {
            let rect = geometry::strip(monitor, at_right(s.settings), width);
            if !s.bar_registered {
                (
                    s,
                    BarStep::Ask {
                        phase: BarPhase::Registering { rect, width },
                        action: BarAction::Register { bar: s.bar },
                    },
                )
            } else if !s.bar_dirty && s.bar_rect == rect {
                (s, BarStep::Ready { rect })
            } else {
                (s, propose(s, rect, width))
            }
        },
        (BarPhase::Registering { rect, width }, BarEvent::Done) => {
            let t = StateModel { bar_registered: true, bar_dirty: true, ..s };
            (t, propose(t, rect, width))
        },
        (BarPhase::Querying { width }, BarEvent::Rect { rect: free }) => (
            s,
            BarStep::Ask {
                phase: BarPhase::Setting,
                action: BarAction::SetPos {
                    bar: s.bar,
                    edge: shell_edge(s.settings),
                    rect: geometry::strip(free, at_right(s.settings), width),
                },
            },
        ),
        (BarPhase::Setting, BarEvent::Rect { rect }) => (
            s,
            BarStep::Ask {
                phase: BarPhase::Moving { rect },
                action: BarAction::Move {
                    bar: s.bar,
                    x: rect.left,
                    y: rect.top,
                    w: rect.wide() as i32,
                    h: rect.high() as i32,
                },
            },
        ),
        (BarPhase::Moving { rect }, BarEvent::Done) => (
            StateModel { bar_rect: rect, bar_dirty: false, ..s },
            BarStep::Ready { rect },
        ),
        _ => (s, BarStep::Ready { rect: s.bar_rect }),
    }
}

/// Is the event an answer to what the phase waits for, and can coordinates hold what follows?
pub open spec fn bar_accepts(s: StateModel, phase: BarPhase, event: BarEvent) -> bool {
    match (phase, event) {
        (BarPhase::Begin { width }, BarEvent::Rect { rect }) => geometry::strip_fits(
            rect,
            at_right(s.settings),
            width,
        ),
        (BarPhase::Registering { .. }, BarEvent::Done) => true,
        (BarPhase::Querying { width }, BarEvent::Rect { rect }) => geometry::strip_fits(
            rect,
            at_right(s.settings),
            width,
        ),
        (BarPhase::Setting, BarEvent::Rect { rect }) => geometry::sides_fit(rect),
        (BarPhase::Moving { .. }, BarEvent::Done) => true,
        _ => false,
    }
}

/// What is left to do where no strip is needed any more.
#[derive(Clone, Copy, Debug, PartialEq, Eq, Structural)]
pub struct Release {
    pub bar: usize,
    /// Take the bar away from the shell.
    pub remove: bool,
    /// Hide the bar.
    pub hide: bool,
}

/// The state without a strip.
pub open spec fn released(s: StateModel) -> StateModel {
    StateModel { bar_registered: false, bar_rect: geometry::zero_rect(), bar_dirty: true, ..s }
}

/// What has to be done to give the strip up: a registered bar is taken away from the shell, and a
/// bar that exists is hidden.
pub open spec fn release_of(s: StateModel) -> Release {
    Release { bar: s.bar, remove: s.bar_registered, hide: s.bar != 0 }
}

impl State {
    /// The proposal of a strip to the shell.
    fn propose(&self, rect: Rect, width: i32) -> (step: BarStep)
        ensures
            step == propose(self@, rect, width),
    {
        let edge: u32 = if self.settings.edge == 0 {
            win32::ABE_RIGHT
        } else {
            win32::ABE_LEFT
        };
        BarStep::Ask {
            phase: BarPhase::Querying { width },
            action: BarAction::QueryPos { bar: self.bar, edge, rect },
        }
    }

    /// Can the reservation go on with the event?
    pub fn appbar_accepts(&self, phase: BarPhase, event: BarEvent) -> (yes: bool)
        ensures
            yes == bar_accepts(self@, phase, event),
    {
        let right = self.settings.edge == 0;
        match (phase, event) {
            (BarPhase::Begin { width }, BarEvent::Rect { rect }) => geometry::has_strip(
                &rect,
                right,
                width,
            ),
            (BarPhase::Registering { .. }, BarEvent::Done) => true,
            (BarPhase::Querying { width }, BarEvent::Rect { rect }) => geometry::has_strip(
                &rect,
                right,
                width,
            ),
            (BarPhase::Setting, BarEvent::Rect { rect }) => geometry::has_sides(&rect),
            (BarPhase::Moving { .. }, BarEvent::Done) => true,
            _ => false,
        }
    }

    /// Takes the reservation of the strip one step further.
    pub fn appbar_ensure(&mut self, phase: BarPhase, event: BarEvent) -> (step: BarStep)
        requires
            bar_accepts(old(self)@, phase, event),
        ensures
            (final(self)@, step) == bar_next(old(self)@, phase, event),
            old(self)@.wf() && bar_inv(old(self)@, phase) ==> final(self)@.wf(),
    {
        let right = self.settings.edge == 0;
        match (phase, event) {
            (BarPhase::Begin { width }, BarEvent::Rect { rect: monitor }) => {
                let rect = geometry::cut_strip(&monitor, right, width);
                if !self.bar_registered {
                    BarStep::Ask {
                        phase: BarPhase::Registering { rect, width },
                        action: BarAction::Register { bar: self.bar },
                    }
                } else if !self.bar_dirty && geometry::rects_equal(&self.bar_rect, &rect) {
                    BarStep::Ready { rect: self.bar_rect }
                } else {
                    self.propose(rect, width)
                }
            },
            (BarPhase::Registering { rect, width }, BarEvent::Done) => {
                self.bar_registered = true;
                self.bar_dirty = true;
                self.propose(rect, width)
            },
            (BarPhase::Querying { width }, BarEvent::Rect { rect: free }) => {
                let edge: u32 = if right {
                    win32::ABE_RIGHT
                } else {
                    win32::ABE_LEFT
                };
                BarStep::Ask {
                    phase: BarPhase::Setting,
                    action: BarAction::SetPos {
                        bar: self.bar,
                        edge,
                        rect: geometry::cut_strip(&free, right, width),
                    },
                }
            },
            (BarPhase::Setting, BarEvent::Rect { rect }) => {
                BarStep::Ask {
                    phase: BarPhase::Moving { rect },
                    action: BarAction::Move {
                        bar: self.bar,
                        x: rect.left,
                        y: rect.top,
                        w: rect.right - rect.left,
                        h: rect.bottom - rect.top,
                    },
                }
            },
            (BarPhase::Moving { rect }, BarEvent::Done) => {
                self.bar_rect = rect;
                self.bar_dirty = false;
                BarStep::Ready { rect }
            },
            _ => BarStep::Ready { rect: self.bar_rect },
        }
    }

    /// Gives the strip up.
    pub fn appbar_release(&mut self) -> (work: Release)
        ensures
            final(self)@ == released(old(self)@),
            work == release_of(old(self)@),
            old(self)@.wf() ==> final(self)@.wf(),
    {
        let work = Release { bar: self.bar, remove: self.bar_registered, hide: self.bar != 0 };
        self.bar_registered = false;
        self.bar_rect = Rect::zero();
        self.bar_dirty = true;
        work
    }

    /// The shell says that something moved: the strip has to be asked for again.
    pub fn position_changed(&mut self)
        ensures
            final(self)@ == (StateModel { bar_dirty: true, ..old(self)@ }),
            old(self)@.wf() ==> final(self)@.wf(),
    {
        self.bar_dirty = true;
    }
}

/// How many answers the reservation still needs at most.
pub open spec fn bar_rank(phase: BarPhase) -> nat {
    match phase {
        BarPhase::Begin { .. } => 5,
        BarPhase::Registering { .. } => 4,
        BarPhase::Querying { .. } => 3,
        BarPhase::Setting => 2,
        BarPhase::Moving { .. } => 1,
    }
}

/// From the proposal on the bar is registered.
pub open spec fn bar_inv(s: StateModel, phase: BarPhase) -> bool {
    phase is Querying || phase is Setting || phase is Moving ==> s.bar_registered
}

/// Every answer brings the reservation nearer to its end; it touches nothing but what is known of
/// the strip; and where it ends, a registered bar holds the strip and nothing has to be asked for.
pub proof fn reservation_makes_progress(s: StateModel, phase: BarPhase, event: BarEvent)
    requires
        bar_accepts(s, phase, event),
        bar_inv(s, phase),
    ensures
        ({
            let (t, step) = bar_next(s, phase, event);
            &&& t == StateModel {
                bar_registered: t.bar_registered,
                bar_rect: t.bar_rect,
                bar_dirty: t.bar_dirty,
                ..s
            }
            &&& s.bar_registered ==> t.bar_registered
            &&& match step {
                BarStep::Ask { phase: next, .. } => bar_rank(next) < bar_rank(phase) && bar_inv(
                    t,
                    next,
                ),
                BarStep::Ready { rect } => t.bar_registered && !t.bar_dirty && t.bar_rect == rect,
            }
        }),
{
}

/// A bar is registered only while the shell does not know it, and no strip is proposed or taken
/// for a bar that the shell does not know.
pub proof fn bar_is_registered_once(s: StateModel, phase: BarPhase, event: BarEvent)
    requires
        bar_accepts(s, phase, event),
        bar_inv(s, phase),
    ensures
        bar_next(s, phase, event).1 matches BarStep::Ask { action, .. } ==> {
            &&& action is Register ==> !s.bar_registered
            &&& action is QueryPos || action is SetPos ==> bar_next(
                s,
                phase,
                event,
            ).0.bar_registered
        },
{
}

/// Whatever is proposed to the shell or taken from it has exactly the width that was asked for and
/// lies at the chosen edge of what it was cut from.
pub proof fn width_is_kept(s: StateModel, width: i32, whole: Rect)
    requires
        geometry::strip_fits(whole, at_right(s.settings), width),
    ensures
        bar_next(s, BarPhase::Begin { width }, BarEvent::Rect { rect: whole }).1 matches BarStep::Ask {
            action: BarAction::QueryPos { rect, edge, .. },
            ..
        } ==> rect.wide() == width && (edge == win32::ABE_RIGHT ==> rect.right == whole.right) && (edge
            == win32::ABE_LEFT ==> rect.left == whole.left),
        bar_next(s, BarPhase::Querying { width }, BarEvent::Rect { rect: whole }).1 matches BarStep::Ask {
            action: BarAction::SetPos { rect, edge, .. },
            ..
        } && rect.wide() == width && (edge == win32::ABE_RIGHT ==> rect.right == whole.right) && (edge
            == win32::ABE_LEFT ==> rect.left == whole.left),
{
}

/// A whole reservation: whatever the state was, the strip that the shell grants in the end is the
/// one that is remembered, and while it is the wanted one it is not asked for again.
pub proof fn granted_strip_is_kept(
    s: StateModel,
    width: i32,
    monitor: Rect,
    free: Rect,
    granted: Rect,
)
    requires
        geometry::strip_fits(monitor, at_right(s.settings), width),
        geometry::strip_fits(free, at_right(s.settings), width),
        geometry::sides_fit(granted),
    ensures
        ({
            let wanted = geometry::strip(monitor, at_right(s.settings), width);
            let begin = BarPhase::Begin { width };
            let (s1, registered) = bar_next(
                s,
                BarPhase::Registering { rect: wanted, width },
                BarEvent::Done,
            );
            let (s2, queried) = bar_next(
                s1,
                registered->phase,
                BarEvent::Rect { rect: free },
            );
            let (s3, set) = bar_next(s2, queried->phase, BarEvent::Rect { rect: granted });
            let (s4, moved) = bar_next(s3, set->phase, BarEvent::Done);
            let (s5, again) = bar_next(s4, begin, BarEvent::Rect { rect: monitor });
            &&& !s.bar_registered ==> bar_next(s, begin, BarEvent::Rect { rect: monitor }).1
                == BarStep::Ask {
                phase: BarPhase::Registering { rect: wanted, width },
                action: BarAction::Register { bar: s.bar },
            }
            &&& s.bar_registered && (s.bar_dirty || s.bar_rect != wanted) ==> bar_next(
                s,
                begin,
                BarEvent::Rect { rect: monitor },
            ).1 == registered
            &&& moved == BarStep::Ready { rect: granted }
            &&& s4 == StateModel {
                bar_registered: true,
                bar_rect: granted,
                bar_dirty: false,
                ..s
            }
            &&& granted == wanted ==> s5 == s4 && again == BarStep::Ready { rect: wanted }
            &&& granted != wanted ==> again is Ask
        }),
{
}

/// Giving the strip up leaves nothing reserved; doing it again changes nothing more and does not
/// take the bar away twice.
pub proof fn release_is_final(s: StateModel)
    ensures
        released(released(s)) == released(s),
        !release_of(released(s)).remove,
        release_of(released(s)).hide == release_of(s).hide,
        s.wf() ==> released(s).wf(),
{
}

/// Edge 0 is the right one and every other edge the left one, also in the terms of the shell.
pub proof fn edges_are_right_and_left(s: SettingsModel)
    ensures
        at_right(s) <==> s.edge == 0,
        s.edge == 0 ==> shell_edge(s) == 2,
        s.edge != 0 ==> shell_edge(s) == 0,
{
}

/// A strip that is proposed lies at the chosen edge of the monitor, at the right one for edge 0 and
/// at the left one for every other, is as wide as asked for, and reaches from the top of the monitor
/// to its bottom.
///
/// A registered bar proposes it at once unless it holds just that strip and nothing moved; one that
/// the shell does not know is registered first, and then proposes it whatever it held.
pub proof fn proposed_strip_lies_at_the_chosen_edge(s: StateModel, width: i32, monitor: Rect)
    requires
        s.settings.edge == 0 ==> -0x8000_0000 <= monitor.right - width <= 0x7FFF_FFFF,
        s.settings.edge != 0 ==> -0x8000_0000 <= monitor.left + width <= 0x7FFF_FFFF,
    ensures
        ({
            let begin = BarPhase::Begin { width };
            let event = BarEvent::Rect { rect: monitor };
            let (t, step) = bar_next(s, begin, event);
            let (u, later) = bar_next(t, step->phase, BarEvent::Done);
            let wanted = if s.settings.edge == 0 {
                Rect {
                    left: (monitor.right - width) as i32,
                    top: monitor.top,
                    right: monitor.right,
                    bottom: monitor.bottom,
                }
            } else {
                Rect {
                    left: monitor.left,
                    top: monitor.top,
                    right: (monitor.left + width) as i32,
                    bottom: monitor.bottom,
                }
            };
            let proposal = BarStep::Ask {
                phase: BarPhase::Querying { width },
                action: BarAction::QueryPos {
                    bar: s.bar,
                    edge: if s.settings.edge == 0 {
                        2
                    } else {
                        0
                    },
                    rect: wanted,
                },
            };
            &&& bar_accepts(s, begin, event)
            &&& t == s
            &&& s.bar_registered && !s.bar_dirty && s.bar_rect == wanted ==> step
                == BarStep::Ready { rect: wanted }
            &&& s.bar_registered && (s.bar_dirty || s.bar_rect != wanted) ==> step == proposal
            &&& !s.bar_registered ==> {
                &&& step matches BarStep::Ask {
                    phase: BarPhase::Registering { .. },
                    action: BarAction::Register { bar },
                } && bar == s.bar
                &&& bar_accepts(t, step->phase, BarEvent::Done)
                &&& u == StateModel { bar_registered: true, bar_dirty: true, ..s }
                &&& later == proposal
            }
        }),
{
}

/// What is taken of the free part has the width that was asked for again, at the chosen edge of the
/// free part; the bar is moved exactly into what is granted; and that is the strip that is held from
/// then on, with nothing left to ask for.
pub proof fn taken_strip_lies_at_the_chosen_edge(
    s: StateModel,
    width: i32,
    free: Rect,
    granted: Rect,
)
    requires
        s.settings.edge == 0 ==> -0x8000_0000 <= free.right - width <= 0x7FFF_FFFF,
        s.settings.edge != 0 ==> -0x8000_0000 <= free.left + width <= 0x7FFF_FFFF,
        -0x8000_0000 <= granted.right - granted.left <= 0x7FFF_FFFF,
        -0x8000_0000 <= granted.bottom - granted.top <= 0x7FFF_FFFF,
    ensures
        ({
            let querying = BarPhase::Querying { width };
            let (s1, taken) = bar_next(s, querying, BarEvent::Rect { rect: free });
            let (s2, moved) = bar_next(s1, taken->phase, BarEvent::Rect { rect: granted });
            let (s3, held) = bar_next(s2, moved->phase, BarEvent::Done);
            &&& bar_accepts(s, querying, BarEvent::Rect { rect: free })
            &&& s1 == s
            &&& taken is Ask
            &&& taken->action matches BarAction::SetPos { bar, edge, rect } && {
                &&& bar == s.bar
                &&& rect.top == free.top && rect.bottom == free.bottom
                &&& rect.right - rect.left == width
                &&& s.settings.edge == 0 ==> edge == 2 && rect.right == free.right
                &&& s.settings.edge != 0 ==> edge == 0 && rect.left == free.left
            }
            &&& bar_accepts(s1, taken->phase, BarEvent::Rect { rect: granted })
            &&& s2 == s
            &&& moved is Ask
            &&& moved->action matches BarAction::Move { bar, x, y, w, h } && {
                &&& bar == s.bar
                &&& x == granted.left && y == granted.top
                &&& w == granted.right - granted.left && h == granted.bottom - granted.top
            }
            &&& bar_accepts(s2, moved->phase, BarEvent::Done)
            &&& s3 == StateModel { bar_rect: granted, bar_dirty: false, ..s }
            &&& held == BarStep::Ready { rect: granted }
        }),
{
}

/// After the entry of a right corner what is proposed to the shell and taken from it lies at the
/// right edge of what it is cut from, after that of a left corner at the left edge.
pub proof fn chosen_corner_is_reserved(s: StateModel, cmd: usize, width: i32, whole: Rect)
    requires
        1201 <= cmd <= 1204,
        cmd <= 1202 ==> -0x8000_0000 <= whole.right - width <= 0x7FFF_FFFF,
        cmd >= 1203 ==> -0x8000_0000 <= whole.left + width <= 0x7FFF_FFFF,
    ensures
        ({
            let t = commands::after_command(s, cmd);
            let whole_event = BarEvent::Rect { rect: whole };
            let begun = bar_next(t, BarPhase::Begin { width }, whole_event).1;
            let taken = bar_next(t, BarPhase::Querying { width }, whole_event).1;
            &&& s.bar_registered ==> (begun is Ask && (begun->action matches BarAction::QueryPos {
                bar,
                edge,
                rect,
            } && {
                &&& bar == s.bar && rect.right - rect.left == width
                &&& cmd <= 1202 ==> edge == 2 && rect.right == whole.right
                &&& cmd >= 1203 ==> edge == 0 && rect.left == whole.left
            }))
            &&& !s.bar_registered ==> (begun is Ask && begun->action is Register)
            &&& taken is Ask
            &&& taken->action matches BarAction::SetPos { bar, edge, rect } && {
                &&& bar == s.bar && rect.right - rect.left == width
                &&& cmd <= 1202 ==> edge == 2 && rect.right == whole.right
                &&& cmd >= 1203 ==> edge == 0 && rect.left == whole.left
            }
        }),
{
    commands::corner_commands_choose_edge_and_end(s, cmd);
    let t = commands::after_command(s, cmd);
    proposed_strip_lies_at_the_chosen_edge(t, width, whole);
    taken_strip_lies_at_the_chosen_edge(t, width, whole, geometry::zero_rect());
}

/// Giving the strip up leaves a bar that is not registered, no rectangle, and a strip that has to be
/// asked for, and touches nothing else. The bar is taken away from the shell exactly if the shell
/// knew it, and hidden exactly if there is one.
pub proof fn release_gives_all_up(s: StateModel)
    ensures
        ({
            let t = released(s);
            let work = release_of(s);
            &&& !t.bar_registered && t.bar_dirty
            &&& t.bar_rect.left == 0 && t.bar_rect.top == 0 && t.bar_rect.right == 0
                && t.bar_rect.bottom == 0
            &&& t.settings == s.settings && t.target == s.target && t.bar == s.bar
            &&& t.keep_w == s.keep_w && t.keep_h == s.keep_h && t.notified == s.notified
            &&& t.menu_windows == s.menu_windows
            &&& work.bar == s.bar
            &&& work.remove <==> s.bar_registered
            &&& work.hide <==> s.bar != 0
        }),
{
}

} // verus!
