use capslock_switcher::overlay::{
    alpha, initial_state, lang_display, layout_window, on_detected, on_event, on_paint,
    on_request_caps, on_request_show, on_shown, on_switch_request, on_timer, post_quit, rgb, show_caps_overlay,
    show_language_overlay, text_size, wnd_proc, Indicator, OverlayAction, OverlayEvent,
    OverlayState, TIMER_ANIM, TIMER_READ, WM_APP_CAPS, WM_APP_SHOW,
};
use capslock_switcher::window::{
    centered, goes_on, half, show_once, Placement, Post, Rect, ShowAction, ThreadPost,
};

#[test]
fn labels_and_colours() {
    let d = |i| {
        let x = lang_display(i);
        (x.label, x.color)
    };
    assert_eq!(d(Indicator::En), ("EN", 0x00EB_701E));
    assert_eq!(d(Indicator::Zh), ("中", 0x0035_39E5));
    assert_eq!(d(Indicator::Ja), ("日", 0x0000_8ED4));
    assert_eq!(d(Indicator::Ko), ("韩", 0x0021_2121));
    assert_eq!(d(Indicator::JaHiragana).1, d(Indicator::Ja).1);
    assert_eq!(d(Indicator::JaKatakana).1, d(Indicator::Ja).1);
    assert_ne!(d(Indicator::JaHiragana).0, d(Indicator::JaKatakana).0);
    assert_eq!(d(Indicator::Upper).0, "大写");
    assert_eq!(d(Indicator::Lower).0, "小写");
}

#[test]
fn rgb_is_red_first() {
    assert_eq!(rgb(1, 2, 3), 0x0003_0201);
    assert_eq!(rgb(255, 255, 255), 0x00FF_FFFF);
    assert_eq!(rgb(0x100, 0x1, 0), 0x100);
}

#[test]
fn requests_are_posted_and_arrive() {
    assert_eq!(show_language_overlay(0), None);
    let post = Post { window: 42, msg: WM_APP_SHOW, wparam: 0 };
    assert_eq!(show_language_overlay(42), Some(post));
    assert_eq!(wnd_proc(post.msg, post.wparam), OverlayEvent::RequestShow);
    assert_eq!(show_caps_overlay(0, true), None);
    for caps_on in [true, false] {
        let post = show_caps_overlay(42, caps_on).unwrap();
        assert_eq!((post.window, post.msg), (42, WM_APP_CAPS));
        assert_eq!(wnd_proc(post.msg, post.wparam), OverlayEvent::RequestCaps(caps_on));
    }
    assert_eq!((WM_APP_SHOW, WM_APP_CAPS), (0x8001, 0x8002));
}

#[test]
fn quit_is_posted_to_a_running_thread() {
    assert_eq!(post_quit(0), None);
    assert_eq!(post_quit(8), Some(ThreadPost { thread: 8, msg: 0x12 }));
}

#[test]
fn window_messages() {
    assert_eq!(wnd_proc(0x113, 2), OverlayEvent::Timer(2));
    assert_eq!(wnd_proc(0xF, 0), OverlayEvent::Paint);
    assert_eq!(wnd_proc(0x2, 0), OverlayEvent::Quit);
    assert_eq!(wnd_proc(0x1, 0), OverlayEvent::Other);
}

#[test]
fn opacity_over_time() {
    assert_eq!(alpha(0), 235);
    assert_eq!(alpha(299), 235);
    assert_eq!(alpha(300), 235);
    assert_eq!(alpha(302), 234);
    assert_eq!(alpha(450), 118);
    assert_eq!(alpha(599), 1);
    assert_eq!(alpha(600), 0);
    assert_eq!(alpha(u32::MAX), 0);
    for t in 0..700 {
        assert!(alpha(t + 1) <= alpha(t));
    }
}

#[test]
fn request_to_show_resets() {
    let reset = vec![
        OverlayAction::KillTimer(1),
        OverlayAction::KillTimer(2),
        OverlayAction::SetAlpha(235),
        OverlayAction::SetTimer { id: 1, ms: 20 },
    ];
    assert_eq!(on_request_show(), reset);
    let mut switched = vec![OverlayAction::Switch];
    switched.extend(reset);
    assert_eq!(on_switch_request(), switched);
}

#[test]
fn a_whole_showing() {
    let mut state = initial_state();
    assert_eq!(state, OverlayState { anim_start: 0, shown: Indicator::En });
    assert_eq!(
        on_timer(&mut state, TIMER_READ, 10),
        vec![OverlayAction::KillTimer(1), OverlayAction::Detect]
    );
    assert_eq!(
        on_detected(&mut state, Indicator::Zh),
        vec![
            OverlayAction::Layout,
            OverlayAction::Show,
            OverlayAction::Raise,
            OverlayAction::SetAlpha(235),
            OverlayAction::StartAnimation,
        ]
    );
    assert_eq!(
        on_shown(&mut state, 1000),
        vec![OverlayAction::SetTimer { id: 2, ms: 16 }]
    );
    assert_eq!(state, OverlayState { anim_start: 1000, shown: Indicator::Zh });
    assert_eq!(on_timer(&mut state, TIMER_ANIM, 1016), vec![OverlayAction::SetAlpha(235)]);
    assert_eq!(on_timer(&mut state, TIMER_ANIM, 1450), vec![OverlayAction::SetAlpha(118)]);
    assert_eq!(state.anim_start, 1000);
    assert_eq!(
        on_timer(&mut state, TIMER_ANIM, 1600),
        vec![OverlayAction::KillTimer(2), OverlayAction::SetAlpha(0), OverlayAction::Hide]
    );
    assert_eq!(state, OverlayState { anim_start: 0, shown: Indicator::Zh });
    assert_eq!(on_timer(&mut state, TIMER_ANIM, 1616), vec![]);
    assert_eq!(on_timer(&mut state, 3, 1616), vec![]);
}

#[test]
fn step_long_after_the_fade_ends_the_animation() {
    for (start, now) in [(1, 4_294_967_297), (5, 5 + (1 << 32) + 450), (1, u64::MAX)] {
        let mut state = OverlayState { anim_start: start, shown: Indicator::En };
        assert_eq!(
            on_timer(&mut state, TIMER_ANIM, now),
            vec![OverlayAction::KillTimer(2), OverlayAction::SetAlpha(0), OverlayAction::Hide]
        );
        assert_eq!(state, OverlayState { anim_start: 0, shown: Indicator::En });
    }
}

#[test]
fn event_of_a_show_request_switches_once() {
    let mut state = OverlayState { anim_start: 7, shown: Indicator::Ko };
    let actions = on_event(&mut state, wnd_proc(WM_APP_SHOW, 0), 100);
    assert_eq!(actions, on_switch_request());
    assert_eq!(actions[0], OverlayAction::Switch);
    assert!(!actions[1..].contains(&OverlayAction::Switch));
    assert_eq!(state, OverlayState { anim_start: 7, shown: Indicator::Ko });
}

#[test]
fn events_come_to_their_actions() {
    let mut state = initial_state();
    let caps = on_event(&mut state, wnd_proc(WM_APP_CAPS, 1), 100);
    assert_eq!(state.shown, Indicator::Upper);
    assert_eq!(caps, on_request_caps(&mut initial_state(), true));
    assert_eq!(
        on_event(&mut state, OverlayEvent::Timer(TIMER_READ), 100),
        vec![OverlayAction::KillTimer(1), OverlayAction::Detect]
    );
    assert_eq!(
        on_shown(&mut state, 100),
        vec![OverlayAction::SetTimer { id: 2, ms: 16 }]
    );
    assert_eq!(
        on_event(&mut state, OverlayEvent::Timer(TIMER_ANIM), 700),
        vec![OverlayAction::KillTimer(2), OverlayAction::SetAlpha(0), OverlayAction::Hide]
    );
    let before = state;
    for event in [OverlayEvent::Paint, OverlayEvent::Quit, OverlayEvent::Other] {
        assert_eq!(on_event(&mut state, event, 0), vec![]);
    }
    assert_eq!(state, before);
}

#[test]
fn caps_are_brought_up_at_once() {
    let mut state = initial_state();
    let actions = on_request_caps(&mut state, true);
    assert_eq!(
        actions,
        vec![
            OverlayAction::KillTimer(1),
            OverlayAction::KillTimer(2),
            OverlayAction::Layout,
            OverlayAction::Show,
            OverlayAction::Raise,
            OverlayAction::SetAlpha(235),
            OverlayAction::StartAnimation,
        ]
    );
    assert_eq!(state.shown, Indicator::Upper);
    on_request_caps(&mut state, false);
    assert_eq!(state.shown, Indicator::Lower);
}

#[test]
fn window_lies_in_the_middle_of_the_screen() {
    assert_eq!(
        layout_window(30, 32, 1920, 1080),
        Placement { x: 925, y: 512, width: 70, height: 56 }
    );
    // larger than the screen: halves drop the fraction
    assert_eq!(
        layout_window(61, 0, 100, 100),
        Placement { x: 0, y: 38, width: 101, height: 24 }
    );
}

#[test]
fn text_lies_in_the_middle_of_the_window() {
    let rc = Rect { left: 0, top: 0, right: 70, bottom: 56 };
    let plan = on_paint(rc, 30, 32);
    assert_eq!((plan.corner, plan.text_x, plan.text_y), (28, 20, 12));
    let shifted = Rect { left: 10, top: 5, right: 25, bottom: 12 };
    let plan = on_paint(shifted, 4, 4);
    assert_eq!((plan.corner, plan.text_x, plan.text_y), (3, 15, 6));
}

#[test]
fn unmeasured_text_has_no_size() {
    assert_eq!(text_size(true, 3, 4), (3, 4));
    assert_eq!(text_size(false, 3, 4), (0, 0));
}

#[test]
fn halves_and_centres() {
    assert_eq!(half(7), 3);
    assert_eq!(half(-7), -3);
    assert_eq!(centered(100, 51), 24);
    assert_eq!(centered(51, 100), -24);
}

#[test]
fn window_is_opened_once() {
    assert_eq!(show_once(0), ShowAction::Open);
    assert_eq!(show_once(9), ShowAction::BringToFront(9));
}

#[test]
fn message_loop_ends_at_quit_and_at_error() {
    assert!(goes_on(1));
    assert!(!goes_on(0));
    assert!(!goes_on(-1));
}
