use vstd::prelude::*;

use crate::mode::Mode;
use crate::paint::{rgb, rgb_spec};
use crate::wide::{encode_wide, tip_field, tip_field_of, utf16_of};

verus! {

/// Background colour of the tray badge of each mode: blue for US, green for BR.
pub open spec fn badge_color_spec(mode: Mode) -> u32 {
    match mode {
        Mode::UsIntl => rgb_spec(37, 99, 235),
        Mode::Abnt2 => rgb_spec(22, 163, 74),
    }
}

/// Text drawn on the tray badge of each mode.
pub open spec fn badge_label_spec(mode: Mode) -> Seq<char> {
    match mode {
        Mode::UsIntl => "US"@,
        Mode::Abnt2 => "BR"@,
    }
}

/// The badge colour for `mode`.
pub fn badge_color(mode: Mode) -> (c: u32)
    ensures
        c == badge_color_spec(mode),
{
    match mode {
        Mode::UsIntl => rgb(37, 99, 235),
        Mode::Abnt2 => rgb(22, 163, 74),
    }
}

/// The badge text for `mode`.
pub fn badge_label(mode: Mode) -> (label: &'static str)
    ensures
        label@ == badge_label_spec(mode),
{
    match mode {
        Mode::UsIntl => "US",
        Mode::Abnt2 => "BR",
    }
}

/// Colour of the drawn brand icon used when no icon file is available.
pub fn brand_color() -> (c: u32)
    ensures
        c == rgb_spec(79, 70, 229),
{
    rgb(79, 70, 229)
}

/// Text of the drawn brand icon.
pub fn brand_label() -> (label: &'static str)
    ensures
        label@ == "K"@,
{
    "K"
}

/// Tooltip of the tray icon in each mode.
pub open spec fn tooltip_spec(mode: Mode) -> Seq<char> {
    match mode {
        Mode::UsIntl => "KeyFlag — US International"@,
        Mode::Abnt2 => "KeyFlag — Português ABNT2"@,
    }
}

/// The tooltip text for `mode`.
pub fn tooltip(mode: Mode) -> (text: &'static str)
    ensures
        text@ == tooltip_spec(mode),
{
    match mode {
        Mode::UsIntl => "KeyFlag — US International",
        Mode::Abnt2 => "KeyFlag — Português ABNT2",
    }
}

/// The tooltip field of the tray record for `mode`: the NUL-terminated
/// tooltip, cut to fit.
pub fn tooltip_field(mode: Mode) -> (field: Vec<u16>)
    ensures
        field@ == tip_field_of(utf16_of(tooltip_spec(mode)).push(0u16)),
{
    let tip = encode_wide(tooltip(mode));
    tip_field(&tip)
}

/// The tray icon handle currently shown, 0 for none. Every handle put in
/// replaces the previous one, which is handed back for destruction so no
/// badge leaks across mode changes or shell restarts.
pub struct TrayIconSlot {
    icon: isize,
}

impl View for TrayIconSlot {
    type V = isize;

    closed spec fn view(&self) -> isize {
        self.icon
    }
}

impl TrayIconSlot {
    /// An empty slot.
    pub fn new() -> (slot: Self)
        ensures
            slot@ == 0,
    {
        TrayIconSlot { icon: 0 }
    }

    /// Puts `icon` in the slot; returns the handle it replaced, if any, for the
    /// caller to destroy.
    pub fn replace(&mut self, icon: isize) -> (old_icon: Option<isize>)
        ensures
            final(self)@ == icon,
            old_icon == (if old(self)@ != 0 {
                Some(old(self)@)
            } else {
                None::<isize>
            }),
    {
        let previous = self.icon;
        self.icon = icon;
        if previous != 0 {
            Some(previous)
        } else {
            None
        }
    }
}

/// Win32 message numbers the hidden window reacts to.
pub const WM_DESTROY: u32 = 0x0002;
/// `WM_CONTEXTMENU`.
pub const WM_CONTEXTMENU: u32 = 0x007B;
/// `WM_TIMER`.
pub const WM_TIMER: u32 = 0x0113;
/// `WM_LBUTTONUP`.
pub const WM_LBUTTONUP: u32 = 0x0202;
/// `WM_RBUTTONUP`.
pub const WM_RBUTTONUP: u32 = 0x0205;
/// `WM_APP`.
pub const WM_APP: u32 = 0x8000;
/// The tray icon's callback message.
pub const WM_TRAY: u32 = 0x8001;

/// What the hidden message window does with a message.
#[derive(Clone, Copy, PartialEq, Eq, Structural, Debug)]
pub enum MainAction {
    /// The shell recreated the notification area: add the tray icon again.
    RestoreTrayIcon,
    /// The window is being destroyed: post the quit message.
    Quit,
    /// The enforcement timer fired: snap the foreground window back.
    Enforce,
    /// A tray icon notification: open the menu if it was a click.
    TrayNotification,
    /// Hand the message to the default window procedure.
    Default,
}

/// The action for message `msg`, where `taskbar_created` is the runtime id
/// of the shell's "TaskbarCreated" broadcast (0 when it could not be had).
pub open spec fn main_action_spec(msg: u32, taskbar_created: u32) -> MainAction {
    if msg != 0 && msg == taskbar_created {
        MainAction::RestoreTrayIcon
    } else if msg == WM_DESTROY {
        MainAction::Quit
    } else if msg == WM_TIMER {
        MainAction::Enforce
    } else if msg == WM_TRAY {
        MainAction::TrayNotification
    } else {
        MainAction::Default
    }
}

/// Dispatches a message of the hidden window.
pub fn main_action(msg: u32, taskbar_created: u32) -> (action: MainAction)
    ensures
        action == main_action_spec(msg, taskbar_created),
{
    if msg != 0 && msg == taskbar_created {
        MainAction::RestoreTrayIcon
    } else if msg == WM_DESTROY {
        MainAction::Quit
    } else if msg == WM_TIMER {
        MainAction::Enforce
    } else if msg == WM_TRAY {
        MainAction::TrayNotification
    } else {
        MainAction::Default
    }
}

/// Whether a tray notification (its `lParam`) is a click that opens the
/// menu: a left or right button release, or a context-menu request, in the
/// low word.
pub open spec fn tray_click_spec(lparam: isize) -> bool {
    let m = (lparam as u32) & 0xffffu32;
    m == WM_LBUTTONUP || m == WM_RBUTTONUP || m == WM_CONTEXTMENU
}

/// Decides whether a tray notification opens the menu.
pub fn tray_click_opens_menu(lparam: isize) -> (opens: bool)
    ensures
        opens == tray_click_spec(lparam),
{
    let m = (lparam as u32) & 0xffffu32;
    m == WM_LBUTTONUP || m == WM_RBUTTONUP || m == WM_CONTEXTMENU
}

} // verus!
