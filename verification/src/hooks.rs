//! The low level keyboard hook: what becomes of each key event.
//!
//! CapsLock alone is swallowed and asks for a switch of the input method. Alt+CapsLock goes on to
//! the system, and shows when it is released whether capitals are locked. Everything else passes.

use vstd::prelude::*;

use crate::ime_toggle::INJECTED_FLAG;
use crate::overlay::{show_caps_overlay, show_language_overlay, OverlayAction, OverlayState};
use crate::win32::{
    low_dword, LLKHF_ALTDOWN, LLKHF_INJECTED, LLKHF_UP, VK_CAPITAL, VK_LMENU, VK_RMENU, WM_KEYDOWN,
    WM_QUIT, WM_SYSKEYDOWN,
};
use crate::window::{quit_thread, Post, ThreadPost};

verus! {

/// The bit of a key state that stands for a locked key.
pub const KEYSTATE_TOGGLED: i16 = 0x0001;

/// What the hook learns of a key.
#[derive(Clone, Copy, PartialEq, Eq, Debug, Structural)]
pub struct KeyInfo {
    pub vk_code: u32,
    pub flags: u32,
    pub extra_info: usize,
}

/// What is to become of a key event.
#[derive(Clone, Copy, PartialEq, Eq, Debug, Structural)]
pub enum HookAction {
    /// It goes on to the next hook.
    PassOn,
    /// It goes on, and the overlay shows whether capitals are locked.
    PassOnShowCaps,
    /// It is swallowed, and the overlay thread is asked to switch and show the language.
    SwallowAndSwitch,
}

/// One of the two Alt keys.
pub open spec fn is_alt_key(key: KeyInfo) -> bool {
    key.vk_code == VK_LMENU || key.vk_code == VK_RMENU
}

/// The event is a release.
pub open spec fn is_up(key: KeyInfo) -> bool {
    crate::win32::has_bit(key.flags as int, LLKHF_UP as int)
}

/// The event was injected by this program.
pub open spec fn is_own(key: KeyInfo) -> bool {
    crate::win32::has_bit(key.flags as int, LLKHF_INJECTED as int) && key.extra_info
        == INJECTED_FLAG
}

/// The message of the event is a press.
pub open spec fn is_press(wparam: int) -> bool {
    let msg = crate::win32::low_dword_of(wparam);
    msg == WM_KEYDOWN || msg == WM_SYSKEYDOWN
}

/// Whether an Alt key is held, as tracked over the event. Where `code` is negative the event is
/// not to be looked at.
pub open spec fn alt_next(alt_down: bool, code: i32, key: KeyInfo) -> bool {
    if code >= 0 && is_alt_key(key) {
        !is_up(key)
    } else {
        alt_down
    }
}

/// A CapsLock event that the rules apply to: a key of the user, while the program is enabled.
pub open spec fn is_caps(enabled: bool, code: i32, key: KeyInfo) -> bool {
    code >= 0 && enabled && !is_own(key) && key.vk_code == VK_CAPITAL
}

/// What is to become of an event, `alt_down` being the tracked state after it. Alt counts as held
/// if it is tracked as held or if the event says so.
pub open spec fn hook_action(
    alt_down: bool,
    enabled: bool,
    code: i32,
    wparam: int,
    key: KeyInfo,
) -> HookAction {
    let alt = alt_down || crate::win32::has_bit(key.flags as int, LLKHF_ALTDOWN as int);
    if !is_caps(enabled, code, key) {
        HookAction::PassOn
    } else if alt && is_up(key) {
        HookAction::PassOnShowCaps
    } else if !alt && is_press(wparam) {
        HookAction::SwallowAndSwitch
    } else {
        HookAction::PassOn
    }
}

/// Decides on one key event, and tracks the Alt keys. `enabled` is off while the program is
/// paused. Where `code` is negative, the key is not looked at.
pub fn keyboard_hook(
    alt_down: &mut bool,
    enabled: bool,
    code: i32,
    wparam: usize,
    key: KeyInfo,
) -> (action: HookAction)
    ensures
        *final(alt_down) == alt_next(*old(alt_down), code, key),
        action == hook_action(*final(alt_down), enabled, code, wparam as int, key),
{
    if code < 0 {
        return HookAction::PassOn;
    }
    let flags: u32 = key.flags;
    assert((flags & 0x80 == 0x80) == ((flags / 0x80) % 2 == 1)) by (bit_vector);
    assert((flags & 0x20 == 0x20) == ((flags / 0x20) % 2 == 1)) by (bit_vector);
    assert((flags & 0x10 == 0x10) == ((flags / 0x10) % 2 == 1)) by (bit_vector);
    let up: bool = flags & LLKHF_UP == LLKHF_UP;
    if key.vk_code == VK_LMENU as u32 || key.vk_code == VK_RMENU as u32 {
        *alt_down = !up;
    }
    let own: bool = flags & LLKHF_INJECTED == LLKHF_INJECTED && key.extra_info == INJECTED_FLAG;
    if !enabled || own || key.vk_code != VK_CAPITAL as u32 {
        return HookAction::PassOn;
    }
    let alt: bool = flags & LLKHF_ALTDOWN == LLKHF_ALTDOWN || *alt_down;
    let msg: u32 = low_dword(wparam);
    if alt {
        if up {
            HookAction::PassOnShowCaps
        } else {
            HookAction::PassOn
        }
    } else if msg == WM_KEYDOWN || msg == WM_SYSKEYDOWN {
        HookAction::SwallowAndSwitch
    } else {
        HookAction::PassOn
    }
}

/// Whether a key state says that the key is locked.
pub fn is_locked(key_state: i16) -> (locked: bool)
    ensures
        locked == (key_state as int % 2 == 1),
{
    assert((key_state & 0x0001 != 0) == ((key_state as int) % 2 == 1)) by (bit_vector);
    key_state & KEYSTATE_TOGGLED != 0
}

/// What an action asks of the overlay window: a swallowed press, to switch and show; a passing
/// one that shows the lock, to show it as the key state has it.
pub open spec fn overlay_request(action: HookAction, window: usize, key_state: i16) -> Option<
    Post,
> {
    if window == 0 {
        None
    } else {
        match action {
            HookAction::PassOn => None,
            HookAction::PassOnShowCaps => Some(
                crate::overlay::caps_request(window, key_state as int % 2 == 1),
            ),
            HookAction::SwallowAndSwitch => Some(crate::overlay::language_request(window)),
        }
    }
}

/// The message that an action posts to the overlay window, where that is up. `key_state` is that
/// of CapsLock, and counts only where the lock is shown.
pub fn request_of(action: HookAction, window: usize, key_state: i16) -> (post: Option<Post>)
    ensures
        post == overlay_request(action, window, key_state),
{
    match action {
        HookAction::PassOn => None,
        HookAction::PassOnShowCaps => show_caps_overlay(window, is_locked(key_state)),
        HookAction::SwallowAndSwitch => show_language_overlay(window),
    }
}

/// The message that ends the hook thread, where it runs.
pub fn post_quit(thread: u32) -> (post: Option<ThreadPost>)
    ensures
        post == if thread != 0 {
            Some(ThreadPost { thread, msg: WM_QUIT })
        } else {
            None
        },
{
    quit_thread(thread)
}

/// The tracked Alt state after a run of events, each with its hook code.
pub open spec fn alt_after(alt_down: bool, events: Seq<(i32, KeyInfo)>) -> bool
    decreases events.len(),
{
    if events.len() == 0 {
        alt_down
    } else {
        alt_next(
            alt_after(alt_down, events.drop_last()),
            events.last().0,
            events.last().1,
        )
    }
}

/// The tracked state is that of the last Alt event: held after a press, free after a release,
/// whatever other keys came since.
pub proof fn law_last_alt_event_decides(alt_down: bool, events: Seq<(i32, KeyInfo)>, i: int)
    requires
        0 <= i < events.len(),
        events[i].0 >= 0 && is_alt_key(events[i].1),
        forall|j: int|
            i < j < events.len() ==> (#[trigger] events[j]).0 < 0 || !is_alt_key(events[j].1),
    ensures
        alt_after(alt_down, events) == !is_up(events[i].1),
    decreases events.len(),
{
    if i < events.len() - 1 {
        let front = events.drop_last();
        assert(forall|j: int| i < j < front.len() ==> front[j] == events[j]);
        law_last_alt_event_decides(alt_down, front, i);
    }
}

/// A release is never swallowed, so no key can get stuck.
pub proof fn law_releases_pass(alt_down: bool, enabled: bool, code: i32, wparam: int, key: KeyInfo)
    requires
        !is_press(wparam),
    ensures
        hook_action(alt_down, enabled, code, wparam, key) != HookAction::SwallowAndSwitch,
{
}

/// While the program is paused, every event passes and nothing is shown.
pub proof fn law_paused_hook_passes_everything(
    alt_down: bool,
    code: i32,
    wparam: int,
    key: KeyInfo,
)
    ensures
        hook_action(alt_down, false, code, wparam, key) == HookAction::PassOn,
{
}

/// No key that a switch injects comes to anything in the hook, so a switch never asks for
/// another.
pub proof fn law_injected_keys_never_switch(
    tap: crate::ime_toggle::Tap,
    i: int,
    alt_down: bool,
    enabled: bool,
    code: i32,
    wparam: int,
    key: KeyInfo,
)
    requires
        0 <= i < crate::ime_toggle::tap_inputs(tap).len(),
        crate::win32::has_bit(key.flags as int, LLKHF_INJECTED as int),
        key.extra_info == crate::ime_toggle::tap_inputs(tap)[i].extra_info,
    ensures
        hook_action(alt_down, enabled, code, wparam, key) == HookAction::PassOn,
{
    crate::ime_laws::law_tap_releases_what_it_presses(tap, i);
}

/// CapsLock with Alt held is left to the system, press and release, and shows the lock when it
/// is released.
pub proof fn law_alt_caps_is_left_to_the_system(
    alt_down: bool,
    enabled: bool,
    code: i32,
    wparam: int,
    key: KeyInfo,
)
    requires
        is_caps(enabled, code, key),
        alt_down || crate::win32::has_bit(key.flags as int, LLKHF_ALTDOWN as int),
    ensures
        hook_action(alt_down, enabled, code, wparam, key) == if is_up(key) {
            HookAction::PassOnShowCaps
        } else {
            HookAction::PassOn
        },
{
}

/// A swallowed press reaches the overlay as a request that switches once and then shows; and no
/// other action of the hook leads to a switch.
pub proof fn law_swallowed_press_switches_and_shows(
    action: HookAction,
    window: usize,
    key_state: i16,
    state: OverlayState,
    now: int,
)
    requires
        window != 0,
    ensures
        action == HookAction::SwallowAndSwitch ==> overlay_request(action, window, key_state)
            == Some(crate::overlay::language_request(window)),
        overlay_request(action, window, key_state) matches Some(post) ==> {
            let event = crate::overlay::overlay_event(post.msg, post.wparam);
            let actions = crate::overlay::event_next(state, event, now).1;
            if action == HookAction::SwallowAndSwitch {
                actions == seq![OverlayAction::Switch] + crate::overlay::request_show_actions()
            } else {
                actions == crate::overlay::request_caps_actions() && !actions.contains(
                    OverlayAction::Switch,
                )
            }
        },
{
}

proof fn flags_are_bits(flags: u32)
    ensures
        flags & LLKHF_UP != 0 <==> (flags / 0x80) % 2 == 1,
        flags & LLKHF_ALTDOWN != 0 <==> (flags / 0x20) % 2 == 1,
        flags & LLKHF_INJECTED != 0 <==> (flags / 0x10) % 2 == 1,
{
    assert((flags & 0x80 != 0) == ((flags / 0x80) % 2 == 1)) by (bit_vector);
    assert((flags & 0x20 != 0) == ((flags / 0x20) % 2 == 1)) by (bit_vector);
    assert((flags & 0x10 != 0) == ((flags / 0x10) % 2 == 1)) by (bit_vector);
}

/// Every key but CapsLock passes, whatever the Alt state, the pause, the code and the message.
pub proof fn law_other_keys_pass(
    alt_down: bool,
    enabled: bool,
    code: i32,
    wparam: int,
    key: KeyInfo,
)
    requires
        key.vk_code != VK_CAPITAL,
    ensures
        hook_action(alt_down, enabled, code, wparam, key) == HookAction::PassOn,
{
}

/// A press of CapsLock is swallowed and switches exactly where the user made it, without Alt,
/// while the program is enabled.
pub proof fn law_caps_press_alone_switches(
    alt_down: bool,
    enabled: bool,
    code: i32,
    wparam: int,
    key: KeyInfo,
)
    ensures
        ({
            let msg = wparam % 0x1_0000_0000;
            let alt = alt_down || key.flags & LLKHF_ALTDOWN != 0;
            let injected_here = key.flags & LLKHF_INJECTED != 0 && key.extra_info == 1;
            hook_action(alt_down, enabled, code, wparam, key) == HookAction::SwallowAndSwitch <==> {
                &&& code >= 0
                &&& enabled
                &&& key.vk_code == VK_CAPITAL
                &&& !injected_here
                &&& !alt
                &&& msg == WM_KEYDOWN || msg == WM_SYSKEYDOWN
            }
        }),
{
    flags_are_bits(key.flags);
}

/// The lock is shown exactly where the user lets go of CapsLock with Alt held, while the program
/// is enabled, whatever the message.
pub proof fn law_alt_caps_release_shows_the_lock(
    alt_down: bool,
    enabled: bool,
    code: i32,
    wparam: int,
    key: KeyInfo,
)
    ensures
        ({
            let alt = alt_down || key.flags & LLKHF_ALTDOWN != 0;
            let injected_here = key.flags & LLKHF_INJECTED != 0 && key.extra_info == 1;
            hook_action(alt_down, enabled, code, wparam, key) == HookAction::PassOnShowCaps <==> {
                &&& code >= 0
                &&& enabled
                &&& key.vk_code == VK_CAPITAL
                &&& !injected_here
                &&& alt
                &&& key.flags & LLKHF_UP != 0
            }
        }),
{
    flags_are_bits(key.flags);
}

/// Either Alt key counts as held from its press to its release; no other key and no event that
/// is not to be looked at changes that, and neither the pause nor an injection is asked.
pub proof fn law_alt_keys_are_tracked(alt_down: bool, code: i32, key: KeyInfo)
    ensures
        ({
            let alt_key = key.vk_code == VK_LMENU || key.vk_code == VK_RMENU;
            let next = alt_next(alt_down, code, key);
            &&& code >= 0 && alt_key && key.flags & LLKHF_UP == 0 ==> next
            &&& code >= 0 && alt_key && key.flags & LLKHF_UP != 0 ==> !next
            &&& code < 0 || !alt_key ==> next == alt_down
        }),
{
    flags_are_bits(key.flags);
}

/// What the hook asks of the overlay arrives there: a swallowed press as the request to show, a
/// shown lock as the lowest bit of the key state has it. It goes to the overlay window, and
/// nothing is posted where that is not up or where the key merely passes.
pub proof fn law_hook_requests_arrive(action: HookAction, window: usize, key_state: i16)
    ensures
        overlay_request(action, window, key_state) is None <==> window == 0 || action
            == HookAction::PassOn,
        overlay_request(action, window, key_state) matches Some(post) ==> {
            let event = crate::overlay::overlay_event(post.msg, post.wparam);
            &&& post.window == window
            &&& action == HookAction::SwallowAndSwitch ==> event
                == crate::overlay::OverlayEvent::RequestShow
            &&& action == HookAction::PassOnShowCaps ==> event
                == crate::overlay::OverlayEvent::RequestCaps(key_state & 1 != 0)
        },
{
    assert((key_state & 1 != 0) == ((key_state as int) % 2 == 1)) by (bit_vector);
}

} // verus!
