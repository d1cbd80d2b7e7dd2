//! The tray icon as the shell is told of it.

use crate::messages;
use crate::pin;
use crate::utf16;
use crate::win32;
use vstd::prelude::*;

verus! {

/// The number of the tray icon; there is only one.
pub const ICON_ID: u32 = 1;

/// What the shell is told of the tray icon.
pub struct NotifyIcon {
    pub id: u32,
    /// Which of the other parts count.
    pub flags: u32,
    pub callback: u32,
    pub info_flags: u32,
    pub tip: [u16; 128],
    pub info: [u16; 256],
    pub info_title: [u16; 64],
}

/// A buffer of zeros.
pub open spec fn zeros(n: nat) -> Seq<u16> {
    Seq::new(n, |i: int| 0u16)
}

impl NotifyIcon {
    /// The parts of the description that are not text.
    pub open spec fn head(self) -> (u32, u32, u32, u32) {
        (self.id, self.flags, self.callback, self.info_flags)
    }
}

/// A description that says nothing but the number of the icon. It serves to take the icon away.
pub fn bare_icon() -> (n: NotifyIcon)
    ensures
        n.head() == (ICON_ID, 0u32, 0u32, 0u32),
        n.tip@ == zeros(128),
        n.info@ == zeros(256),
        n.info_title@ == zeros(64),
{
    let n = NotifyIcon {
        id: ICON_ID,
        flags: 0,
        callback: 0,
        info_flags: 0,
        tip: [0u16; 128],
        info: [0u16; 256],
        info_title: [0u16; 64],
    };
    assert(n.tip@ =~= zeros(128));
    assert(n.info@ =~= zeros(256));
    assert(n.info_title@ =~= zeros(64));
    n
}

/// The description with which the icon is added.
pub fn new_icon() -> (n: NotifyIcon)
    ensures
        n.head() == (ICON_ID, 7u32, messages::WM_TRAY, 0u32),
        n.tip@ == utf16::stored(zeros(128), pin::APP_NAME@),
        n.info@ == zeros(256),
        n.info_title@ == zeros(64),
{
    let mut n = bare_icon();
    n.flags = win32::NIF_ICON | win32::NIF_MESSAGE | win32::NIF_TIP;
    assert(2u32 | 1u32 | 4u32 == 7u32) by (bit_vector);
    n.callback = messages::WM_TRAY;
    utf16::set_wstr(&mut n.tip, pin::APP_NAME);
    n
}

/// The description that gives the icon another text.
pub fn set_tip(tip: &str) -> (n: NotifyIcon)
    ensures
        n.head() == (ICON_ID, win32::NIF_TIP, 0u32, 0u32),
        n.tip@ == utf16::stored(zeros(128), tip@),
        n.info@ == zeros(256),
        n.info_title@ == zeros(64),
{
    let mut n = bare_icon();
    n.flags = win32::NIF_TIP;
    utf16::set_wstr(&mut n.tip, tip);
    n
}

/// The description that shows a balloon at the icon.
pub fn balloon(title: &str, msg: &str) -> (n: NotifyIcon)
    ensures
        n.head() == (ICON_ID, win32::NIF_INFO, 0u32, win32::NIIF_INFO),
        n.tip@ == zeros(128),
        n.info@ == utf16::stored(zeros(256), msg@),
        n.info_title@ == utf16::stored(zeros(64), title@),
{
    let mut n = bare_icon();
    n.flags = win32::NIF_INFO;
    n.info_flags = win32::NIIF_INFO;
    utf16::set_wstr(&mut n.info_title, title);
    utf16::set_wstr(&mut n.info, msg);
    n
}

/// The parts that are not text are number, flags, message and sign, and a buffer of zeros holds
/// nothing else.
pub proof fn description_shows_what_it_holds(n: NotifyIcon, len: nat, i: int)
    ensures
        n.head().0 == n.id,
        n.head().1 == n.flags,
        n.head().2 == n.callback,
        n.head().3 == n.info_flags,
        zeros(len).len() == len,
        0 <= i < len ==> zeros(len)[i] == 0,
{
}

} // verus!
