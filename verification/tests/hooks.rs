use capslock_switcher::hooks::{
    is_locked, keyboard_hook, post_quit, request_of, HookAction, KeyInfo,
};
use capslock_switcher::ime_toggle::{send_key_tap, send_scan_tap};
use capslock_switcher::overlay::{
    initial_state, on_event, show_caps_overlay, show_language_overlay, wnd_proc, OverlayAction,
};
use capslock_switcher::win32::{
    LLKHF_ALTDOWN, LLKHF_INJECTED, LLKHF_UP, VK_CAPITAL, VK_LMENU, VK_RMENU, WM_KEYDOWN,
    WM_SYSKEYDOWN,
};
use capslock_switcher::window::ThreadPost;

const WM_KEYUP: usize = 0x0101;
const WM_SYSKEYUP: usize = 0x0105;

fn key(vk: u16, flags: u32) -> KeyInfo {
    KeyInfo { vk_code: vk as u32, flags, extra_info: 0 }
}

#[test]
fn caps_lock_press_is_swallowed_and_switches() {
    let mut alt = false;
    for msg in [WM_KEYDOWN as usize, WM_SYSKEYDOWN as usize] {
        let action = keyboard_hook(&mut alt, true, 0, msg, key(VK_CAPITAL, 0));
        assert_eq!(action, HookAction::SwallowAndSwitch);
    }
    assert!(!alt);
}

#[test]
fn caps_lock_release_passes() {
    let mut alt = false;
    let action = keyboard_hook(&mut alt, true, 0, WM_KEYUP, key(VK_CAPITAL, LLKHF_UP));
    assert_eq!(action, HookAction::PassOn);
}

#[test]
fn only_the_low_half_of_the_message_counts() {
    let mut alt = false;
    let high = (1usize << 32) | WM_KEYDOWN as usize;
    assert_eq!(
        keyboard_hook(&mut alt, true, 0, high, key(VK_CAPITAL, 0)),
        HookAction::SwallowAndSwitch
    );
}

#[test]
fn tracked_alt_leaves_caps_lock_to_the_system() {
    for vk in [VK_LMENU, VK_RMENU] {
        let mut alt = false;
        let down = WM_SYSKEYDOWN as usize;
        assert_eq!(keyboard_hook(&mut alt, true, 0, down, key(vk, 0)), HookAction::PassOn);
        assert!(alt);
        // another key in between does not matter
        assert_eq!(keyboard_hook(&mut alt, true, 0, down, key(0x41, 0)), HookAction::PassOn);
        assert_eq!(keyboard_hook(&mut alt, true, 0, down, key(VK_CAPITAL, 0)), HookAction::PassOn);
        assert_eq!(
            keyboard_hook(&mut alt, true, 0, WM_SYSKEYUP, key(VK_CAPITAL, LLKHF_UP)),
            HookAction::PassOnShowCaps
        );
        assert_eq!(keyboard_hook(&mut alt, true, 0, WM_KEYUP, key(vk, LLKHF_UP)), HookAction::PassOn);
        assert!(!alt);
        assert_eq!(
            keyboard_hook(&mut alt, true, 0, WM_KEYDOWN as usize, key(VK_CAPITAL, 0)),
            HookAction::SwallowAndSwitch
        );
    }
}

#[test]
fn alt_flag_of_the_event_is_enough() {
    let mut alt = false;
    let down = WM_SYSKEYDOWN as usize;
    assert_eq!(
        keyboard_hook(&mut alt, true, 0, down, key(VK_CAPITAL, LLKHF_ALTDOWN)),
        HookAction::PassOn
    );
    assert_eq!(
        keyboard_hook(&mut alt, true, 0, WM_SYSKEYUP, key(VK_CAPITAL, LLKHF_ALTDOWN | LLKHF_UP)),
        HookAction::PassOnShowCaps
    );
}

#[test]
fn negative_code_is_not_looked_at() {
    let mut alt = false;
    let down = WM_KEYDOWN as usize;
    assert_eq!(keyboard_hook(&mut alt, true, -1, down, key(VK_CAPITAL, 0)), HookAction::PassOn);
    assert_eq!(keyboard_hook(&mut alt, true, -1, down, key(VK_LMENU, 0)), HookAction::PassOn);
    assert!(!alt);
}

#[test]
fn paused_hook_passes_but_tracks_alt() {
    let mut alt = false;
    let down = WM_KEYDOWN as usize;
    assert_eq!(keyboard_hook(&mut alt, false, 0, down, key(VK_CAPITAL, 0)), HookAction::PassOn);
    assert_eq!(keyboard_hook(&mut alt, false, 0, down, key(VK_RMENU, 0)), HookAction::PassOn);
    assert!(alt);
    assert_eq!(
        keyboard_hook(&mut alt, false, 0, WM_SYSKEYUP, key(VK_CAPITAL, LLKHF_UP)),
        HookAction::PassOn
    );
}

#[test]
fn own_injected_keys_pass() {
    let mut inputs = send_key_tap(0xA2, VK_CAPITAL);
    inputs.extend(send_scan_tap(0x29, 0));
    for input in inputs {
        let mut alt = false;
        let k = KeyInfo {
            vk_code: VK_CAPITAL as u32,
            flags: LLKHF_INJECTED,
            extra_info: input.extra_info,
        };
        assert_eq!(
            keyboard_hook(&mut alt, true, 0, WM_KEYDOWN as usize, k),
            HookAction::PassOn
        );
    }
}

#[test]
fn keys_injected_by_others_count() {
    let mut alt = false;
    let other = KeyInfo { vk_code: VK_CAPITAL as u32, flags: LLKHF_INJECTED, extra_info: 2 };
    assert_eq!(
        keyboard_hook(&mut alt, true, 0, WM_KEYDOWN as usize, other),
        HookAction::SwallowAndSwitch
    );
    // the mark alone, on a key that was not injected, does not count either
    let marked = KeyInfo { vk_code: VK_CAPITAL as u32, flags: 0, extra_info: 1 };
    assert_eq!(
        keyboard_hook(&mut alt, true, 0, WM_KEYDOWN as usize, marked),
        HookAction::SwallowAndSwitch
    );
}

#[test]
fn lock_is_the_lowest_bit_of_the_key_state() {
    assert!(is_locked(1));
    assert!(!is_locked(0));
    assert!(is_locked(-127));
    assert!(!is_locked(-128));
}

#[test]
fn hook_thread_is_ended_where_it_runs() {
    assert_eq!(post_quit(0), None);
    assert_eq!(post_quit(31), Some(ThreadPost { thread: 31, msg: 0x12 }));
}

#[test]
fn actions_post_their_requests() {
    assert_eq!(request_of(HookAction::PassOn, 9, 1), None);
    assert_eq!(request_of(HookAction::SwallowAndSwitch, 0, 0), None);
    assert_eq!(request_of(HookAction::PassOnShowCaps, 0, 1), None);
    assert_eq!(request_of(HookAction::SwallowAndSwitch, 9, 1), show_language_overlay(9));
    for (key_state, caps_on) in [(1, true), (0, false), (-127, true), (-128, false)] {
        assert_eq!(
            request_of(HookAction::PassOnShowCaps, 9, key_state),
            show_caps_overlay(9, caps_on)
        );
    }
}

#[test]
fn swallowed_press_switches_once_on_the_overlay() {
    let mut alt = false;
    let action = keyboard_hook(&mut alt, true, 0, WM_KEYDOWN as usize, key(VK_CAPITAL, 0));
    let post = request_of(action, 9, 0).unwrap();
    let mut state = initial_state();
    let actions = on_event(&mut state, wnd_proc(post.msg, post.wparam), 50);
    assert_eq!(actions.iter().filter(|a| **a == OverlayAction::Switch).count(), 1);
    assert_eq!(actions[0], OverlayAction::Switch);
}
