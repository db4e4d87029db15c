//! The tray icon and its menu: pause or resume, start at logon, exit.

use vstd::prelude::*;

use crate::utf16::{encode_utf16, encode_utf16_nul};
use crate::win32::{
    low_word, low_word_signed, MF_CHECKED, MF_STRING, MF_UNCHECKED, WM_COMMAND, WM_DESTROY,
    WM_RBUTTONUP, WM_USER,
};
use crate::window::Post;

verus! {

/// The message by which the icon reports what is done to it.
pub const WM_TRAY_ICON: u32 = WM_USER + 1;

/// The menu item that pauses or resumes.
pub const IDM_TOGGLE: u32 = 1;

/// The menu item that turns the start at logon on or off.
pub const IDM_AUTOSTART: u32 = 2;

/// The menu item that ends the program.
pub const IDM_EXIT: u32 = 3;

/// The number by which the icon goes.
pub const ICON_ID: u32 = 1;

/// The record of an icon names a message.
pub const NIF_MESSAGE: u32 = 0x1;

/// The record of an icon holds a picture.
pub const NIF_ICON: u32 = 0x2;

/// The record of an icon holds a tip.
pub const NIF_TIP: u32 = 0x4;

/// The code units that a tip has room for, the closing NUL among them.
pub const TIP_UNITS: usize = 128;

/// The tray between two messages.
#[derive(Clone, Copy, PartialEq, Eq, Debug, Structural)]
pub struct TrayState {
    /// Off while the program is paused.
    pub enabled: bool,
}

/// The tray at the start: the program is not paused.
pub fn initial_state() -> (state: TrayState)
    ensures
        state.enabled,
{
    TrayState { enabled: true }
}

/// Whether the program is enabled, for the keyboard hook to ask.
pub fn is_enabled(state: &TrayState) -> (enabled: bool)
    ensures
        enabled == state.enabled,
{
    state.enabled
}

/// The message that closes the tray window, where it is up.
pub fn post_quit(window: usize) -> (post: Option<Post>)
    ensures
        post == if window != 0 {
            Some(Post { window, msg: WM_DESTROY, wparam: 0 })
        } else {
            None
        },
{
    if window != 0 {
        Some(Post { window, msg: WM_DESTROY, wparam: 0 })
    } else {
        None
    }
}

/// What a message to the tray window comes to.
#[derive(Clone, Copy, PartialEq, Eq, Debug, Structural)]
pub enum TrayAction {
    /// The menu opens.
    ShowMenu,
    /// The program was paused or resumed, and the tip says so.
    UpdateTip { enabled: bool },
    /// The start at logon is turned on if it is off, and off if it is on.
    ToggleAutostart,
    /// The keyboard hook ends, and the tray window with it.
    Exit,
    /// The message loop ends.
    Quit,
    /// Nothing, and the message is done with.
    Nothing,
    /// Left to the system.
    Other,
}

/// What a message comes to, and the tray after it.
pub open spec fn tray_next(state: TrayState, msg: u32, wparam: int, lparam: int) -> (
    TrayState,
    TrayAction,
) {
    let id = crate::win32::low_word_of(wparam);
    if msg == WM_TRAY_ICON {
        if crate::win32::low_word_of(lparam) == WM_RBUTTONUP {
            (state, TrayAction::ShowMenu)
        } else {
            (state, TrayAction::Nothing)
        }
    } else if msg == WM_COMMAND {
        if id == IDM_TOGGLE {
            (
                TrayState { enabled: !state.enabled },
                TrayAction::UpdateTip { enabled: !state.enabled },
            )
        } else if id == IDM_AUTOSTART {
            (state, TrayAction::ToggleAutostart)
        } else if id == IDM_EXIT {
            (state, TrayAction::Exit)
        } else {
            (state, TrayAction::Nothing)
        }
    } else if msg == WM_DESTROY {
        (state, TrayAction::Quit)
    } else {
        (state, TrayAction::Other)
    }
}

/// Takes the tray over one message.
pub fn tray_wnd_proc(state: &mut TrayState, msg: u32, wparam: usize, lparam: isize) -> (action:
    TrayAction)
    ensures
        (*final(state), action) == tray_next(*old(state), msg, wparam as int, lparam as int),
{
    if msg == WM_TRAY_ICON {
        if low_word_signed(lparam) == WM_RBUTTONUP {
            TrayAction::ShowMenu
        } else {
            TrayAction::Nothing
        }
    } else if msg == WM_COMMAND {
        let id: u32 = low_word(wparam);
        if id == IDM_TOGGLE {
            let now_enabled: bool = !state.enabled;
            state.enabled = now_enabled;
            TrayAction::UpdateTip { enabled: now_enabled }
        } else if id == IDM_AUTOSTART {
            TrayAction::ToggleAutostart
        } else if id == IDM_EXIT {
            TrayAction::Exit
        } else {
            TrayAction::Nothing
        }
    } else if msg == WM_DESTROY {
        TrayAction::Quit
    } else {
        TrayAction::Other
    }
}

/// Only the menu item that pauses and resumes changes whether the program is enabled, and chosen
/// twice it changes nothing.
pub proof fn law_pause_and_resume(
    state: TrayState,
    msg: u32,
    wparam: int,
    lparam: int,
    lparam2: int,
)
    ensures
        ({
            let (once, action) = tray_next(state, msg, wparam, lparam);
            let (twice, again) = tray_next(once, msg, wparam, lparam2);
            &&& once.enabled != state.enabled <==> msg == WM_COMMAND && crate::win32::low_word_of(
                wparam,
            ) == IDM_TOGGLE
            &&& once.enabled != state.enabled ==> action == (TrayAction::UpdateTip {
                enabled: once.enabled,
            })
            &&& twice == state
        }),
{
}

// ---- the menu ----

/// A menu item.
pub struct MenuItem {
    pub flags: u32,
    pub id: u32,
    /// The text, closed by a NUL.
    pub text: Vec<u16>,
}

/// The text of the item that pauses or resumes: what choosing it does.
pub open spec fn toggle_text(enabled: bool) -> Seq<char> {
    if enabled {
        "停止"@
    } else {
        "启用"@
    }
}

/// The tick before the item that turns the start at logon on or off.
pub open spec fn tick_of(enabled: bool, autostart: bool) -> u32 {
    if autostart {
        MF_CHECKED
    } else {
        MF_UNCHECKED
    }
}

/// The items of the menu, in order. The second one is ticked where the program starts at logon.
pub fn show_context_menu(enabled: bool, autostart: bool) -> (items: Vec<MenuItem>)
    ensures
        items@.len() == 3,
        items@[0].flags == MF_STRING,
        items@[0].id == IDM_TOGGLE,
        items@[0].text@ == crate::utf16::utf16_nul(toggle_text(enabled)),
        items@[1].flags == MF_STRING + tick_of(enabled, autostart),
        items@[1].id == IDM_AUTOSTART,
        items@[1].text@ == crate::utf16::utf16_nul("开机启动(管理员)"@),
        items@[2].flags == MF_STRING,
        items@[2].id == IDM_EXIT,
        items@[2].text@ == crate::utf16::utf16_nul("退出"@),
{
    let toggle: &'static str = if enabled {
        "停止"
    } else {
        "启用"
    };
    let tick: u32 = if autostart {
        MF_CHECKED
    } else {
        MF_UNCHECKED
    };
    assert(0u32 | tick == tick) by (bit_vector);
    let mut items: Vec<MenuItem> = Vec::new();
    items.push(MenuItem { flags: MF_STRING, id: IDM_TOGGLE, text: encode_utf16_nul(toggle) });
    items.push(
        MenuItem {
            flags: MF_STRING | tick,
            id: IDM_AUTOSTART,
            text: encode_utf16_nul("开机启动(管理员)"),
        },
    );
    items.push(MenuItem { flags: MF_STRING, id: IDM_EXIT, text: encode_utf16_nul("退出") });
    items
}

// ---- the icon ----

/// The record of an icon, as the shell takes it.
pub struct IconRecord {
    pub window: usize,
    pub id: u32,
    pub flags: u32,
    /// The message by which the icon reports; zero where the record names none.
    pub callback: u32,
    /// The tip in its fixed room.
    pub tip: Vec<u16>,
}

/// A tip in its room: as many code units of the text as leave one free, and zeros after them.
pub open spec fn tip_of(text: Seq<char>) -> Seq<u16> {
    let wide = crate::utf16::utf16(text);
    Seq::new(
        TIP_UNITS as nat,
        |i: int|
            if i < wide.len() && i < TIP_UNITS - 1 {
                wide[i]
            } else {
                0u16
            },
    )
}

fn tip_units(text: &str) -> (tip: Vec<u16>)
    ensures
        tip@ == tip_of(text@),
{
    let wide: Vec<u16> = encode_utf16(text);
    let mut tip: Vec<u16> = Vec::new();
    let mut i: usize = 0;
    while i < TIP_UNITS
        invariant
            i <= TIP_UNITS,
            wide@ == crate::utf16::utf16(text@),
            tip@ == tip_of(text@).take(i as int),
        decreases TIP_UNITS - i,
    {
        if i < wide.len() && i < TIP_UNITS - 1 {
            tip.push(wide[i]);
        } else {
            tip.push(0);
        }
        i = i + 1;
        assert(tip@ =~= tip_of(text@).take(i as int));
    }
    assert(tip_of(text@).take(TIP_UNITS as int) =~= tip_of(text@));
    tip
}

/// The record by which the icon is put up for a tray window: picture, message and tip.
pub fn icon_record(window: usize) -> (record: IconRecord)
    ensures
        record.window == window,
        record.id == ICON_ID,
        record.flags == NIF_ICON + NIF_MESSAGE + NIF_TIP,
        record.callback == WM_TRAY_ICON,
        record.tip@ == tip_of("CapsLock Switcher"@),
{
    assert(0x2u32 | 0x1u32 | 0x4u32 == 7u32) by (bit_vector);
    IconRecord {
        window,
        id: ICON_ID,
        flags: NIF_ICON | NIF_MESSAGE | NIF_TIP,
        callback: WM_TRAY_ICON,
        tip: tip_units("CapsLock Switcher"),
    }
}

/// The tip while the program is enabled or paused.
pub open spec fn state_tip(enabled: bool) -> Seq<char> {
    if enabled {
        "CapsLock Switcher (已启用)"@
    } else {
        "CapsLock Switcher (已停止)"@
    }
}

/// The record that changes the tip of the icon, where the tray window is up.
pub fn update_tray_tip(window: usize, enabled: bool) -> (record: Option<IconRecord>)
    ensures
        record is Some <==> window != 0,
        record matches Some(r) ==> {
            &&& r.window == window
            &&& r.id == ICON_ID
            &&& r.flags == NIF_TIP
            &&& r.callback == 0
            &&& r.tip@ == tip_of(state_tip(enabled))
        },
{
    if window == 0 {
        return None;
    }
    let text: &'static str = if enabled {
        "CapsLock Switcher (已启用)"
    } else {
        "CapsLock Switcher (已停止)"
    };
    Some(IconRecord { window, id: ICON_ID, flags: NIF_TIP, callback: 0, tip: tip_units(text) })
}

/// A tip always ends with a NUL, and holds the whole of every text that leaves room for one.
pub proof fn law_tip_ends_with_nul(text: Seq<char>)
    ensures
        tip_of(text).len() == TIP_UNITS,
        tip_of(text).last() == 0,
        crate::utf16::utf16(text).len() < TIP_UNITS ==> tip_of(text).take(
            crate::utf16::utf16(text).len() + 1int,
        ) == crate::utf16::utf16_nul(text),
{
    let wide = crate::utf16::utf16(text);
    if wide.len() < TIP_UNITS {
        assert(tip_of(text).take(wide.len() + 1int) =~= crate::utf16::utf16_nul(text));
    }
}

/// Chosen in the menu, each item does its own thing whether the program is enabled or paused:
/// exit ends it, the start at logon is turned over, and only the first item pauses or resumes. A
/// command of another number does nothing.
pub proof fn law_menu_items_do_their_own_thing(state: TrayState, wparam: int, lparam: int)
    ensures
        ({
            let (next, action) = tray_next(state, WM_COMMAND, wparam, lparam);
            let id = wparam % 0x1_0000;
            &&& id == 1 ==> next.enabled == !state.enabled && action == (TrayAction::UpdateTip {
                enabled: !state.enabled,
            })
            &&& id == 2 ==> next == state && action == TrayAction::ToggleAutostart
            &&& id == 3 ==> next == state && action == TrayAction::Exit
            &&& !(1 <= id <= 3) ==> next == state && action == TrayAction::Nothing
        }),
        IDM_TOGGLE == 1 && IDM_AUTOSTART == 2 && IDM_EXIT == 3,
{
}

/// A right click on the icon opens the menu whether the program is enabled or paused; whatever
/// else is done to the icon comes to nothing.
pub proof fn law_right_click_opens_the_menu(state: TrayState, wparam: int, lparam: int)
    ensures
        tray_next(state, WM_TRAY_ICON, wparam, lparam) == (
            state,
            if lparam % 0x1_0000 == WM_RBUTTONUP {
                TrayAction::ShowMenu
            } else {
                TrayAction::Nothing
            },
        ),
        WM_TRAY_ICON == WM_USER + 1,
{
}

/// The window being destroyed ends the loop, and a message that is neither of the icon nor a
/// command is left to the system; neither changes anything.
pub proof fn law_other_messages_keep_the_tray(state: TrayState, msg: u32, wparam: int, lparam: int)
    requires
        msg != WM_COMMAND,
        msg != WM_USER + 1,
    ensures
        tray_next(state, msg, wparam, lparam) == (
            state,
            if msg == WM_DESTROY {
                TrayAction::Quit
            } else {
                TrayAction::Other
            },
        ),
{
}

/// But for what the tip is to say, no action depends on whether the program is enabled.
pub proof fn law_actions_do_not_depend_on_the_pause(
    one: TrayState,
    other: TrayState,
    msg: u32,
    wparam: int,
    lparam: int,
)
    ensures
        ({
            let (next, action) = tray_next(one, msg, wparam, lparam);
            let (next2, action2) = tray_next(other, msg, wparam, lparam);
            &&& action == action2 || (action is UpdateTip && action2 is UpdateTip)
            &&& (next == one) == (next2 == other)
        }),
{
}

/// The first menu item names the opposite of what the tip says: it stops an enabled program and
/// enables a stopped one.
pub proof fn law_texts_follow_the_state(enabled: bool)
    ensures
        enabled ==> toggle_text(enabled) == "停止"@ && state_tip(enabled)
            == "CapsLock Switcher (已启用)"@,
        !enabled ==> toggle_text(enabled) == "启用"@ && state_tip(enabled)
            == "CapsLock Switcher (已停止)"@,
{
}

/// A tip holds the code units of its text in their places, as far as they leave the last place
/// free, and zeros in all the others.
pub proof fn law_tip_holds_its_text(text: Seq<char>, i: int)
    requires
        0 <= i < 128,
    ensures
        tip_of(text).len() == 128,
        i < 127 && i < crate::utf16::utf16(text).len() ==> tip_of(text)[i] == crate::utf16::utf16(
            text,
        )[i],
        i == 127 || i >= crate::utf16::utf16(text).len() ==> tip_of(text)[i] == 0,
{
}

/// The start at logon is ticked exactly where the program starts at logon, paused or not.
pub proof fn law_tick_tells_the_start_at_logon(enabled: bool, autostart: bool)
    ensures
        tick_of(enabled, autostart) == 0x8 <==> autostart,
        tick_of(enabled, autostart) == 0 <==> !autostart,
        tick_of(enabled, autostart) == tick_of(!enabled, autostart),
{
}

} // verus!
