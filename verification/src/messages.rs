//! What the messages of the window system mean.

use crate::win32;
use vstd::prelude::*;

verus! {

/// The message of the tray icon.
pub const WM_TRAY: u32 = 0x8001;

/// The message of the shell to the bar.
pub const WM_BAR: u32 = 0x8002;

/// The timer of the watch over the pinned window.
pub const IDT_PIN: usize = 1;

/// The timer of the greeting.
pub const IDT_HELLO: usize = 2;

/// The time between two rounds of the watch, in milliseconds.
pub const PIN_PERIOD: u32 = 400;

/// The time before the greeting, in milliseconds.
pub const HELLO_DELAY: u32 = 700;

/// The greeting.
pub const HELLO_TEXT: &'static str =
    "Çalışıyorum, beni tepside bulacaksın. Telegram açıksa birazdan kenara sabitlenecek.";

/// What is said where the program is started a second time.
pub const RUNNING_TEXT: &'static str =
    "CornerPin zaten çalışıyor. Sağ altta saatin yanındaki tepsi simgesine bak; gizliyse ^ okuna tıkla.";

/// The name of the mutex that the first instance of the program holds.
pub const MUTEX_NAME: &'static str = "Local\\CornerPinSingleInstance";

/// Is the program running already? The mutex was asked for, and `last_error` tells how that went.
pub fn already_running(mutex: usize, last_error: u32) -> (yes: bool)
    ensures
        yes == (mutex != 0 && last_error == win32::ERROR_ALREADY_EXISTS),
{
    mutex != 0 && last_error == win32::ERROR_ALREADY_EXISTS
}

/// What the bar does on a message.
#[derive(Clone, Copy, Debug, PartialEq, Eq, Structural)]
pub enum BarReply {
    /// Nothing; the message is answered with the value.
    Answer { value: isize },
    /// Paints nothing.
    Paint,
    /// Takes note that something moved.
    PositionChanged,
    /// Leaves the message to the window system.
    Forward,
}

/// The bar lets clicks through and is never seen.
pub open spec fn bar_reply(msg: u32, w: usize) -> BarReply {
    if msg == win32::WM_NCHITTEST {
        BarReply::Answer { value: win32::HTTRANSPARENT }
    } else if msg == win32::WM_ERASEBKGND {
        BarReply::Answer { value: 1 }
    } else if msg == win32::WM_PAINT {
        BarReply::Paint
    } else if msg == WM_BAR {
        if w == win32::ABN_POSCHANGED {
            BarReply::PositionChanged
        } else {
            BarReply::Answer { value: 0 }
        }
    } else {
        BarReply::Forward
    }
}

/// Decides what the bar does on a message.
pub fn bar_proc(msg: u32, w: usize) -> (reply: BarReply)
    ensures
        reply == bar_reply(msg, w),
{
    match msg {
        win32::WM_NCHITTEST => BarReply::Answer { value: win32::HTTRANSPARENT },
        win32::WM_ERASEBKGND => BarReply::Answer { value: 1 },
        win32::WM_PAINT => BarReply::Paint,
        WM_BAR => if w == win32::ABN_POSCHANGED {
            BarReply::PositionChanged
        } else {
            BarReply::Answer { value: 0 }
        },
        _ => BarReply::Forward,
    }
}

/// What the bar answers to a message that it does not leave to the window system.
pub open spec fn bar_value(reply: BarReply) -> Option<isize> {
    match reply {
        BarReply::Answer { value } => Some(value),
        BarReply::Paint => Some(0),
        BarReply::PositionChanged => Some(0),
        BarReply::Forward => None,
    }
}

/// Gives the answer of the bar, or none where the window system gives it.
pub fn bar_answer(reply: BarReply) -> (answer: Option<isize>)
    ensures
        answer == bar_value(reply),
{
    match reply {
        BarReply::Answer { value } => Some(value),
        BarReply::Paint | BarReply::PositionChanged => Some(0),
        BarReply::Forward => None,
    }
}

/// The bar answers that it is transparent to the mouse, that its background is erased, and zero
/// where it paints or hears from the shell; all other messages are left to the window system.
pub proof fn bar_answers_its_messages(msg: u32, w: usize)
    ensures
        bar_value(bar_reply(msg, w)) == if msg == win32::WM_NCHITTEST {
            Some(win32::HTTRANSPARENT)
        } else if msg == win32::WM_ERASEBKGND {
            Some(1isize)
        } else if msg == win32::WM_PAINT || msg == WM_BAR {
            Some(0isize)
        } else {
            None
        },
{
}

/// What the main window does on a message.
#[derive(Clone, Copy, Debug, PartialEq, Eq, Structural)]
pub enum WndReply {
    /// Stops the timer of the greeting and greets.
    Hello,
    /// Runs a round of the watch.
    Pin,
    /// Shows the menu.
    Menu,
    /// Gives the strip up, takes the tray icon away and ends the program.
    Destroy,
    /// Nothing.
    Ignore,
    /// Leaves the message to the window system.
    Forward,
}

/// What the mouse did at the tray icon: the lowest sixteen bits.
pub open spec fn tray_event(l: isize) -> int {
    l as int % 0x10000
}

/// The main window serves the timers and the tray icon.
pub open spec fn wnd_reply(msg: u32, w: usize, l: isize) -> WndReply {
    if msg == win32::WM_TIMER {
        if w == IDT_HELLO {
            WndReply::Hello
        } else if w == IDT_PIN {
            WndReply::Pin
        } else {
            WndReply::Ignore
        }
    } else if msg == WM_TRAY {
        if tray_event(l) == win32::WM_RBUTTONUP {
            WndReply::Menu
        } else if tray_event(l) == win32::WM_LBUTTONDBLCLK {
            WndReply::Pin
        } else {
            WndReply::Ignore
        }
    } else if msg == win32::WM_DESTROY {
        WndReply::Destroy
    } else {
        WndReply::Forward
    }
}

/// Decides what the main window does on a message.
pub fn wnd_proc(msg: u32, w: usize, l: isize) -> (reply: WndReply)
    ensures
        reply == wnd_reply(msg, w, l),
{
    match msg {
        win32::WM_TIMER => if w == IDT_HELLO {
            WndReply::Hello
        } else if w == IDT_PIN {
            WndReply::Pin
        } else {
            WndReply::Ignore
        },
        WM_TRAY => {
            let ev: u32 = (l as u32) & 0xFFFF;
            assert(ev == tray_event(l)) by {
                assert((l as u32) & 0xFFFF == l as int % 0x10000) by (bit_vector);
            }
            if ev == win32::WM_RBUTTONUP {
                WndReply::Menu
            } else if ev == win32::WM_LBUTTONDBLCLK {
                WndReply::Pin
            } else {
                WndReply::Ignore
            }
        },
        win32::WM_DESTROY => WndReply::Destroy,
        _ => WndReply::Forward,
    }
}

/// What the main window answers to a message that it does not leave to the window system.
pub open spec fn wnd_value(reply: WndReply) -> Option<isize> {
    if reply is Forward {
        None
    } else {
        Some(0)
    }
}

/// Gives the answer of the main window, or none where the window system gives it.
pub fn wnd_answer(reply: WndReply) -> (answer: Option<isize>)
    ensures
        answer == wnd_value(reply),
{
    match reply {
        WndReply::Forward => None,
        _ => Some(0),
    }
}

/// Every message of a timer, of the tray icon and of the end of the window is answered with zero,
/// also where nothing is done; all other messages are left to the window system.
pub proof fn main_window_answers_its_messages(msg: u32, w: usize, l: isize)
    ensures
        wnd_value(wnd_reply(msg, w, l)) == if msg == win32::WM_TIMER || msg == WM_TRAY || msg
            == win32::WM_DESTROY {
            Some(0isize)
        } else {
            None
        },
{
}

/// The timer of the greeting greets and that of the watch runs a round; other timers do nothing. A
/// click with the right button at the tray icon shows the menu, a double click with the left one
/// runs a round, and what else the mouse does there is ignored, whatever the upper bits say. The end
/// of the window ends the program, and no other message is handled.
pub proof fn main_window_serves_timers_and_tray(msg: u32, w: usize, l: isize)
    ensures
        wnd_reply(msg, w, l) == WndReply::Hello <==> msg == 0x113 && w == 2,
        wnd_reply(msg, w, l) == WndReply::Menu <==> msg == 0x8001 && l % 0x10000 == 0x205,
        wnd_reply(msg, w, l) == WndReply::Pin <==> (msg == 0x113 && w == 1) || (msg == 0x8001 && l
            % 0x10000 == 0x203),
        wnd_reply(msg, w, l) == WndReply::Destroy <==> msg == 2,
        wnd_reply(msg, w, l) == WndReply::Forward <==> msg != 0x113 && msg != 0x8001 && msg != 2,
        wnd_value(wnd_reply(msg, w, l)) == if msg == 0x113 || msg == 0x8001 || msg == 2 {
            Some(0isize)
        } else {
            None
        },
{
}

/// The bar paints nothing when it is told to paint, takes note when the shell says that something
/// moved, and answers minus one where the mouse asks what it hits, one where its background is
/// erased and zero to all else that concerns it. No other message is handled.
pub proof fn bar_hears_the_shell(msg: u32, w: usize)
    ensures
        bar_reply(msg, w) == BarReply::Paint <==> msg == 0xF,
        bar_reply(msg, w) == BarReply::PositionChanged <==> msg == 0x8002 && w == 1,
        bar_reply(msg, w) == BarReply::Forward <==> msg != 0x84 && msg != 0x14 && msg != 0xF && msg
            != 0x8002,
        msg == 0x84 ==> bar_value(bar_reply(msg, w)) == Some(-1isize),
        msg == 0x14 ==> bar_value(bar_reply(msg, w)) == Some(1isize),
        msg == 0xF || msg == 0x8002 ==> bar_value(bar_reply(msg, w)) == Some(0isize),
        bar_reply(msg, w) is Forward <==> bar_value(bar_reply(msg, w)) is None,
{
}

/// The watch looks more often than twice in a second, and the greeting comes within a second; the
/// timers and the messages of the program's own are told apart, and the latter lie in the range that
/// is free for applications.
pub proof fn watch_looks_twice_in_a_second()
    ensures
        PIN_PERIOD == 400 && 2 * PIN_PERIOD < 1000,
        HELLO_DELAY == 700,
        IDT_PIN == 1 && IDT_HELLO == 2,
        WM_TRAY == win32::WM_APP + 1 && WM_BAR == win32::WM_APP + 2,
        win32::WM_APP == 0x8000,
{
}

/// What the program says of itself, and the name that its first instance goes by.
pub proof fn program_says_that_it_runs()
    ensures
        HELLO_TEXT@
            == "Çalışıyorum, beni tepside bulacaksın. Telegram açıksa birazdan kenara sabitlenecek."@,
        RUNNING_TEXT@
            == "CornerPin zaten çalışıyor. Sağ altta saatin yanındaki tepsi simgesine bak; gizliyse ^ okuna tıkla."@,
        MUTEX_NAME@ == "Local\\CornerPinSingleInstance"@,
{
}

} // verus!
