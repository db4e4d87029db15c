use capslock_switcher::tray::{
    icon_record, initial_state, is_enabled, post_quit, show_context_menu, tray_wnd_proc,
    update_tray_tip, TrayAction, TrayState,
};
use capslock_switcher::window::Post;

fn wide(text: &str) -> Vec<u16> {
    text.encode_utf16().chain(std::iter::once(0)).collect()
}

#[test]
fn pausing_twice_changes_nothing() {
    let mut state = initial_state();
    assert!(is_enabled(&state));
    assert_eq!(
        tray_wnd_proc(&mut state, 0x111, 1, 0),
        TrayAction::UpdateTip { enabled: false }
    );
    assert!(!is_enabled(&state));
    assert_eq!(
        tray_wnd_proc(&mut state, 0x111, 0x7_0001, 0),
        TrayAction::UpdateTip { enabled: true }
    );
    assert_eq!(state, initial_state());
}

#[test]
fn other_messages_keep_the_state() {
    let mut state = TrayState { enabled: false };
    assert_eq!(tray_wnd_proc(&mut state, 0x111, 2, 0), TrayAction::ToggleAutostart);
    assert_eq!(tray_wnd_proc(&mut state, 0x111, 3, 0), TrayAction::Exit);
    assert_eq!(tray_wnd_proc(&mut state, 0x111, 4, 0), TrayAction::Nothing);
    assert_eq!(tray_wnd_proc(&mut state, 0x2, 0, 0), TrayAction::Quit);
    assert_eq!(tray_wnd_proc(&mut state, 0xF, 1, 0), TrayAction::Other);
    assert!(!state.enabled);
}

#[test]
fn right_click_opens_the_menu() {
    let mut state = initial_state();
    assert_eq!(tray_wnd_proc(&mut state, 0x401, 1, 0x205), TrayAction::ShowMenu);
    assert_eq!(tray_wnd_proc(&mut state, 0x401, 1, 0x1_0205), TrayAction::ShowMenu);
    assert_eq!(tray_wnd_proc(&mut state, 0x401, 1, -0xFDFB), TrayAction::ShowMenu);
    assert_eq!(tray_wnd_proc(&mut state, 0x401, 1, 0x202), TrayAction::Nothing);
}

#[test]
fn menu_of_an_enabled_program() {
    let items = show_context_menu(true, false);
    let got: Vec<(u32, u32, Vec<u16>)> =
        items.into_iter().map(|i| (i.flags, i.id, i.text)).collect();
    assert_eq!(
        got,
        vec![
            (0, 1, wide("停止")),
            (0, 2, wide("开机启动(管理员)")),
            (0, 3, wide("退出")),
        ]
    );
}

#[test]
fn menu_of_a_paused_program_that_starts_at_logon() {
    let items = show_context_menu(false, true);
    assert_eq!(items[0].text, wide("启用"));
    assert_eq!(items[1].flags, 8);
}

#[test]
fn icon_is_put_up_with_its_tip() {
    let record = icon_record(77);
    assert_eq!((record.window, record.id, record.flags, record.callback), (77, 1, 7, 0x401));
    assert_eq!(record.tip.len(), 128);
    assert_eq!(record.tip[..18], wide("CapsLock Switcher")[..]);
    assert!(record.tip[17..].iter().all(|u| *u == 0));
}

#[test]
fn tip_tells_the_state() {
    assert!(update_tray_tip(0, true).is_none());
    let on = update_tray_tip(5, true).unwrap();
    assert_eq!((on.window, on.id, on.flags, on.callback), (5, 1, 4, 0));
    let text = wide("CapsLock Switcher (已启用)");
    assert_eq!(on.tip[..text.len()], text[..]);
    let off = update_tray_tip(5, false).unwrap();
    let text = wide("CapsLock Switcher (已停止)");
    assert_eq!(off.tip[..text.len()], text[..]);
    assert_eq!(off.tip.len(), 128);
}

#[test]
fn tray_window_is_closed_where_it_is_up() {
    assert_eq!(post_quit(0), None);
    assert_eq!(post_quit(6), Some(Post { window: 6, msg: 2, wparam: 0 }));
}
