//! The constants of the Windows API that the rules of this library read or produce.

use vstd::prelude::*;

verus! {

/// The extended style bit of a tool window, which the task switcher leaves out.
pub const WS_EX_TOOLWINDOW: u32 = 0x80;

/// The extended style bit of a window that stays above the others.
pub const WS_EX_TOPMOST: u32 = 0x8;

/// The edge of the screen that an application bar lies at: left.
pub const ABE_LEFT: u32 = 0;

/// The edge of the screen that an application bar lies at: right.
pub const ABE_RIGHT: u32 = 2;

/// A menu entry with a text.
pub const MF_STRING: u32 = 0;

/// A menu entry with a check mark.
pub const MF_CHECKED: u32 = 0x8;

/// A notification icon has an icon.
pub const NIF_ICON: u32 = 0x2;

/// A notification icon sends a message.
pub const NIF_MESSAGE: u32 = 0x1;

/// A notification icon has a text.
pub const NIF_TIP: u32 = 0x4;

/// A notification icon has a balloon.
pub const NIF_INFO: u32 = 0x10;

/// The balloon shows the sign for information.
pub const NIIF_INFO: u32 = 0x1;

/// The first message that is free for applications.
pub const WM_APP: u32 = 0x8000;

pub const WM_DESTROY: u32 = 0x2;

pub const WM_PAINT: u32 = 0xF;

pub const WM_ERASEBKGND: u32 = 0x14;

pub const WM_NCHITTEST: u32 = 0x84;

pub const WM_TIMER: u32 = 0x113;

pub const WM_LBUTTONDBLCLK: u32 = 0x203;

pub const WM_RBUTTONUP: u32 = 0x205;

/// A click goes through to the window below.
pub const HTTRANSPARENT: isize = -1;

/// Something moved that an application bar depends on.
pub const ABN_POSCHANGED: usize = 1;

/// A named object that was to be created was there already.
pub const ERROR_ALREADY_EXISTS: u32 = 183;

/// Is any of the bits of `bits` set in an extended window style?
pub open spec fn style_has(ex_style: i32, bits: u32) -> bool {
    ex_style & (bits as i32) != 0
}

/// Tests the bits of an extended window style.
pub fn has_style(ex_style: i32, bits: u32) -> (yes: bool)
    ensures
        yes == style_has(ex_style, bits),
{
    ex_style & (bits as i32) != 0
}

/// A style has a bit exactly if the bit is set in it, whatever the other bits are.
pub proof fn other_bits_do_not_count(ex_style: i32, other: i32)
    ensures
        style_has(ex_style, WS_EX_TOOLWINDOW) <==> ex_style & 0x80 != 0,
        style_has(ex_style, WS_EX_TOPMOST) <==> ex_style & 0x8 != 0,
        other & 0x80 == 0 ==> style_has(ex_style | other, WS_EX_TOOLWINDOW) == style_has(
            ex_style,
            WS_EX_TOOLWINDOW,
        ),
        other & 0x8 == 0 ==> style_has(ex_style | other, WS_EX_TOPMOST) == style_has(
            ex_style,
            WS_EX_TOPMOST,
        ),
{
    assert(other & 0x80 == 0 ==> (ex_style | other) & 0x80 == ex_style & 0x80) by (bit_vector);
    assert(other & 0x8 == 0 ==> (ex_style | other) & 0x8 == ex_style & 0x8) by (bit_vector);
}

} // verus!
