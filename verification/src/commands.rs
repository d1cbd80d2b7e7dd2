//! The commands of the menu.

use crate::settings;
use crate::settings::SettingsModel;
use crate::state;
use crate::state::{State, StateModel, MENU_WINDOWS};
use vstd::prelude::*;
use vstd::string::*;

verus! {

/// Pin Telegram.
pub const ID_AUTO: usize = 1000;

/// Pin the window that the menu offered first; the numbers that follow stand for the others.
pub const ID_WIN_BASE: usize = 1100;

/// The number before that of the first corner.
pub const ID_EDGE_BASE: usize = 1200;

/// The number before that of the first size.
pub const ID_WIDTH_BASE: usize = 1300;

/// Keep the window above the others, or do not.
pub const ID_TOPMOST: usize = 1401;

/// Start with Windows, or do not.
pub const ID_STARTUP: usize = 1402;

/// Pin the window now.
pub const ID_PINNOW: usize = 1403;

/// End the program.
pub const ID_EXIT: usize = 1404;

/// How many corners of the two edges there are to choose from.
pub const EDGES: usize = 4;

/// How many sizes there are to choose from.
pub const WIDTHS: usize = 3;

/// What a command leads to.
#[derive(Clone, Copy, Debug, PartialEq, Eq, Structural)]
pub enum Reaction {
    /// The program ends.
    Exit,
    /// The settings are saved, the start with Windows is set as given, and the window is pinned.
    Apply { run_at_startup: bool },
}

/// The state after another window was chosen.
pub open spec fn choosing(s: StateModel, title: Seq<char>) -> StateModel {
    let t = StateModel { settings: SettingsModel { window_match: title, ..s.settings }, ..s };
    state::without_target(t)
}

/// The state after a command. Numbers that stand for nothing change nothing.
pub open spec fn after_command(s: StateModel, cmd: usize) -> StateModel {
    if cmd == ID_AUTO {
        choosing(s, settings::TELEGRAM@)
    } else if ID_WIN_BASE <= cmd < ID_WIN_BASE + MENU_WINDOWS && cmd - ID_WIN_BASE
        < s.menu_windows.len() {
        choosing(s, s.menu_windows[cmd - ID_WIN_BASE])
    } else if ID_EDGE_BASE < cmd <= ID_EDGE_BASE + EDGES {
        StateModel {
            settings: SettingsModel {
                edge: settings::corner_edge(cmd - ID_EDGE_BASE - 1),
                top: settings::corner_top(cmd - ID_EDGE_BASE - 1),
                ..s.settings
            },
            bar_dirty: true,
            ..s
        }
    } else if ID_WIDTH_BASE < cmd <= ID_WIDTH_BASE + WIDTHS {
        StateModel {
            settings: SettingsModel {
                width_mode: (cmd - ID_WIDTH_BASE - 1) as usize,
                ..s.settings
            },
            keep_w: 0,
            keep_h: 0,
            bar_dirty: true,
            ..s
        }
    } else if cmd == ID_TOPMOST {
        StateModel {
            settings: SettingsModel { top_most: !s.settings.top_most, ..s.settings },
            ..s
        }
    } else if cmd == ID_STARTUP {
        StateModel {
            settings: SettingsModel { run_at_startup: !s.settings.run_at_startup, ..s.settings },
            ..s
        }
    } else if cmd == ID_PINNOW {
        StateModel { bar_dirty: true, ..s }
    } else {
        s
    }
}

/// The command that the user chose in the menu, if any: the menu gives 0 if it was left.
pub fn chosen_command(cmd: i32) -> (chosen: Option<usize>)
    ensures
        chosen == if cmd > 0 {
            Some(cmd as usize)
        } else {
            None
        },
{
    if cmd > 0 {
        Some(cmd as usize)
    } else {
        None
    }
}

impl State {
    /// Carries a command out.
    pub fn handle_command(&mut self, cmd: usize) -> (reaction: Reaction)
        ensures
            final(self)@ == after_command(old(self)@, cmd),
            reaction == if cmd == ID_EXIT {
                Reaction::Exit
            } else {
                Reaction::Apply { run_at_startup: final(self)@.settings.run_at_startup }
            },
            old(self)@.wf() ==> final(self)@.wf(),
    {
        if cmd == ID_EXIT {
            return Reaction::Exit;
        }
        if cmd == ID_AUTO {
            self.settings.window_match = settings::TELEGRAM.to_owned();
            self.reset_target();
        } else if cmd > ID_EDGE_BASE && cmd <= ID_EDGE_BASE + EDGES {
            self.settings.set_corner(cmd - ID_EDGE_BASE - 1);
            self.bar_dirty = true;
        } else if cmd > ID_WIDTH_BASE && cmd <= ID_WIDTH_BASE + WIDTHS {
            self.settings.width_mode = cmd - ID_WIDTH_BASE - 1;
            self.keep_w = 0;
            self.keep_h = 0;
            self.bar_dirty = true;
        } else if cmd == ID_TOPMOST {
            self.settings.top_most = !self.settings.top_most;
        } else if cmd == ID_STARTUP {
            self.settings.run_at_startup = !self.settings.run_at_startup;
        } else if cmd == ID_PINNOW {
            self.bar_dirty = true;
        } else if cmd >= ID_WIN_BASE && cmd < ID_WIN_BASE + MENU_WINDOWS {
            let idx: usize = cmd - ID_WIN_BASE;
            if idx < self.menu_windows.len() {
                self.settings.window_match = self.menu_windows[idx].clone();
                self.reset_target();
            }
        }
        Reaction::Apply { run_at_startup: self.settings.run_at_startup }
    }
}

/// Switching twice between staying above the others and not, or between starting with Windows and
/// not, changes nothing.
pub proof fn switches_switch_back(s: StateModel)
    ensures
        after_command(after_command(s, ID_TOPMOST), ID_TOPMOST) == s,
        after_command(after_command(s, ID_STARTUP), ID_STARTUP) == s,
        after_command(s, ID_TOPMOST).settings.top_most != s.settings.top_most,
        after_command(s, ID_STARTUP).settings.run_at_startup != s.settings.run_at_startup,
{
}

/// A command changes at most the one choice that it stands for, and never the bar, whether it is
/// registered, or what the menu offered.
pub proof fn commands_change_one_choice(s: StateModel, cmd: usize)
    ensures
        ({
            let t = after_command(s, cmd);
            &&& t.bar == s.bar && t.bar_registered == s.bar_registered && t.bar_rect == s.bar_rect
            &&& t.menu_windows == s.menu_windows
            &&& t.settings.window_match != s.settings.window_match ==> cmd == ID_AUTO
                || ID_WIN_BASE <= cmd < ID_WIN_BASE + MENU_WINDOWS
            &&& t.settings.edge != s.settings.edge || t.settings.top != s.settings.top
                ==> ID_EDGE_BASE < cmd <= ID_EDGE_BASE + EDGES
            &&& t.settings.width_mode != s.settings.width_mode ==> ID_WIDTH_BASE < cmd
                <= ID_WIDTH_BASE + WIDTHS
            &&& t.settings.top_most != s.settings.top_most ==> cmd == ID_TOPMOST
            &&& t.settings.run_at_startup != s.settings.run_at_startup ==> cmd == ID_STARTUP
        }),
{
}

/// For another corner or another size the strip is asked for again in the next round, and for
/// another size the window is measured anew.
pub proof fn new_strip_is_asked_for(s: StateModel, cmd: usize)
    requires
        after_command(s, cmd).settings.edge != s.settings.edge || after_command(
            s,
            cmd,
        ).settings.top != s.settings.top || after_command(s, cmd).settings.width_mode
            != s.settings.width_mode,
    ensures
        after_command(s, cmd).bar_dirty,
        after_command(s, cmd).settings.width_mode != s.settings.width_mode ==> after_command(
            s,
            cmd,
        ).keep_w == 0 && after_command(s, cmd).keep_h == 0,
        after_command(s, cmd).target == s.target,
{
}

/// Whenever another window is chosen, the old one is given up: the next round searches, measures
/// and announces anew.
pub proof fn new_choice_starts_over(s: StateModel, cmd: usize)
    requires
        after_command(s, cmd).settings.window_match != s.settings.window_match,
    ensures
        after_command(s, cmd).target == 0,
        after_command(s, cmd).keep_w == 0,
        after_command(s, cmd).keep_h == 0,
        !after_command(s, cmd).notified,
{
}

/// The automatic choice looks for Telegram, and the entry of a window for the title that it was
/// offered for; both give the window up that is pinned. A number in the range of the windows that
/// nothing was offered for changes nothing. All else stays as it is.
pub proof fn window_commands_choose_a_title(s: StateModel, cmd: usize)
    ensures
        cmd == 1000 ==> after_command(s, cmd) == (StateModel {
            settings: SettingsModel { window_match: "Telegram"@, ..s.settings },
            target: 0,
            keep_w: 0,
            keep_h: 0,
            notified: false,
            ..s
        }),
        1100 <= cmd < 1140 && cmd - 1100 < s.menu_windows.len() ==> after_command(s, cmd) == (
        StateModel {
            settings: SettingsModel { window_match: s.menu_windows[cmd - 1100], ..s.settings },
            target: 0,
            keep_w: 0,
            keep_h: 0,
            notified: false,
            ..s
        }),
        1100 <= cmd < 1140 && cmd - 1100 >= s.menu_windows.len() ==> after_command(s, cmd) == s,
{
}

/// The first two corners lie at the right edge and the last two at the left one; the second and the
/// fourth are upper ones. The strip is asked for again, and all else stays as it is.
pub proof fn corner_commands_choose_edge_and_end(s: StateModel, cmd: usize)
    requires
        1201 <= cmd <= 1204,
    ensures
        ({
            let t = after_command(s, cmd);
            &&& t.settings.edge == 0 <==> cmd <= 1202
            &&& t.settings.edge <= 1
            &&& t.settings.top <==> cmd == 1202 || cmd == 1204
            &&& t.bar_dirty
            &&& t == StateModel {
                settings: SettingsModel {
                    edge: t.settings.edge,
                    top: t.settings.top,
                    ..s.settings
                },
                bar_dirty: true,
                ..s
            }
        }),
{
}

/// The commands of the sizes choose the size of the window, 420 pixels and 520 pixels; the window is
/// measured anew and the strip asked for again. All else stays as it is.
pub proof fn size_commands_choose_a_size(s: StateModel, cmd: usize)
    requires
        1301 <= cmd <= 1303,
    ensures
        after_command(s, cmd) == (StateModel {
            settings: SettingsModel { width_mode: (cmd - 1301) as usize, ..s.settings },
            keep_w: 0,
            keep_h: 0,
            bar_dirty: true,
            ..s
        }),
{
}

/// Each switch turns its own choice over, pinning now asks for the strip again, and every other
/// number, that of the end of the program too, changes nothing.
pub proof fn other_commands_switch_or_do_nothing(s: StateModel, cmd: usize)
    ensures
        cmd == 1401 ==> after_command(s, cmd) == (StateModel {
            settings: SettingsModel { top_most: !s.settings.top_most, ..s.settings },
            ..s
        }),
        cmd == 1402 ==> after_command(s, cmd) == (StateModel {
            settings: SettingsModel { run_at_startup: !s.settings.run_at_startup, ..s.settings },
            ..s
        }),
        cmd == 1403 ==> after_command(s, cmd) == (StateModel { bar_dirty: true, ..s }),
        cmd != 1000 && !(1100 <= cmd < 1140) && !(1201 <= cmd <= 1204) && !(1301 <= cmd <= 1303)
            && !(1401 <= cmd <= 1403) ==> after_command(s, cmd) == s,
{
}

} // verus!
