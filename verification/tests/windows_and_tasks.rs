use capslock_switcher::about;
use capslock_switcher::about::{AboutEvent, Anchor, MouseAction};
use capslock_switcher::assets::{load_bitmap, LoadReply, LoadStep};
use capslock_switcher::autostart::{
    elevated_launch, is_enabled, query_args, run_elevated_schtasks, set_enabled, toggle_target,
    RunReply, RunStep,
};
use capslock_switcher::readme;
use capslock_switcher::readme::ReadmeEvent;
use capslock_switcher::utf16::{encode_utf16, encode_utf16_nul};
use capslock_switcher::win32::{low_dword, low_word, low_word_signed};
use capslock_switcher::window::{Rect, ShowAction};

#[test]
fn code_units_as_std_has_them() {
    for text in ["", "EN", "日本語", "a\u{10000}b", "\u{10FFFF}", "\u{D7FF}\u{E000}", "x\0y", "😀中"] {
        let std_units: Vec<u16> = text.encode_utf16().collect();
        assert_eq!(encode_utf16(text), std_units);
        assert_eq!(String::from_utf16(&std_units).unwrap(), text);
        let mut closed = std_units;
        closed.push(0);
        assert_eq!(encode_utf16_nul(text), closed);
    }
}

#[test]
fn first_nul_closes_the_text() {
    let wide = encode_utf16_nul("大写 \u{1F600}");
    assert_eq!(wide.iter().position(|u| *u == 0), Some(wide.len() - 1));
}

#[test]
fn words_of_message_parameters() {
    assert_eq!(low_dword(0x1_2345_6789_usize), 0x2345_6789);
    assert_eq!(low_word(0x1234_5678), 0x5678);
    assert_eq!(low_word_signed(-1), 0xFFFF);
    assert_eq!(low_word_signed(0x1_0205), 0x205);
}

#[test]
fn opaque_colours() {
    assert_eq!(about::argb_opaque(0xF7F8FA), 0xFFF7_F8FA);
    assert_eq!(about::argb_opaque(0), 0xFF00_0000);
    assert_eq!(about::argb_opaque(0x1234_5678), 0xFF34_5678);
    assert_eq!(about::argb_opaque(about::GROUND_RGB), readme::GROUND_ARGB);
}

#[test]
fn lines_of_the_about_window() {
    let lines = about::on_paint();
    let got: Vec<(Anchor, &str, i32, bool, u32, bool)> =
        lines.iter().map(|l| (l.anchor, l.text, l.size, l.bold, l.color, l.link)).collect();
    assert_eq!(
        got,
        vec![
            (Anchor::Top(28), "CapsLock Switcher", 20, true, 0xFF21_2527, false),
            (Anchor::Top(70), "作者:Kasukabe Tsumugi", 14, false, 0xFF21_2527, false),
            (Anchor::Top(100), "https://github.com/baendlorel", 14, false, 0xFF00_73FF, true),
            (
                Anchor::Bottom(40),
                "Copyright © 2026 Kasukabe Tsumugi. All rights reserved.",
                12,
                false,
                0xFF6B_7078,
                false
            ),
        ]
    );
    let mut url: Vec<u16> = about::GITHUB_URL.encode_utf16().collect();
    url.push(0);
    assert_eq!(about::open_github(), url);
}

#[test]
fn link_takes_its_left_and_top_edges_only() {
    let link = Rect { left: 10, top: 20, right: 30, bottom: 40 };
    assert!(about::cursor_over_link(10, 20, link));
    assert!(about::cursor_over_link(29, 39, link));
    assert!(!about::cursor_over_link(30, 39, link));
    assert!(!about::cursor_over_link(29, 40, link));
    assert!(!about::cursor_over_link(9, 20, link));
    assert!(!about::cursor_over_link(10, 19, link));
    let unpainted = Rect { left: 0, top: 0, right: 0, bottom: 0 };
    assert!(!about::cursor_over_link(0, 0, unpainted));
}

#[test]
fn mouse_in_the_about_window() {
    let link = Rect { left: 0, top: 0, right: 5, bottom: 5 };
    assert_eq!(about::wnd_proc(0x20), AboutEvent::Hover);
    assert_eq!(about::wnd_proc(0x202), AboutEvent::Click);
    assert_eq!(about::wnd_proc(0xF), AboutEvent::Paint);
    assert_eq!(about::wnd_proc(0x2), AboutEvent::Quit);
    assert_eq!(about::wnd_proc(0x3), AboutEvent::Other);
    assert_eq!(about::on_mouse(AboutEvent::Hover, 1, 1, link), MouseAction::HandCursor);
    assert_eq!(about::on_mouse(AboutEvent::Hover, 9, 1, link), MouseAction::Other);
    assert_eq!(about::on_mouse(AboutEvent::Click, 1, 1, link), MouseAction::OpenLink);
    assert_eq!(about::on_mouse(AboutEvent::Click, 1, 9, link), MouseAction::Nothing);
    assert_eq!(about::on_mouse(AboutEvent::Paint, 1, 1, link), MouseAction::Other);
}

#[test]
fn windows_are_opened_once() {
    assert_eq!(about::show(0), ShowAction::Open);
    assert_eq!(about::show(3), ShowAction::BringToFront(3));
    assert_eq!(readme::show(0), ShowAction::Open);
    assert_eq!(readme::show(4), ShowAction::BringToFront(4));
}

#[test]
fn instructions() {
    let ps = readme::paragraphs();
    let got: Vec<(&str, bool, i32)> =
        ps.iter().map(|p| (p.text, p.bold, p.space_after)).collect();
    assert_eq!(
        got,
        vec![
            ("使用前请先将中英文输入法切换键设为 Ctrl+Space。", true, 16),
            ("快捷键：", true, 6),
            ("CapsLock：切换中英文；日语输入法下切换平假名/片假名/英文。", false, 4),
            ("Alt+CapsLock：原生大小写锁定。", false, 0),
        ]
    );
    assert_eq!(readme::wnd_proc(0xF), ReadmeEvent::Paint);
    assert_eq!(readme::wnd_proc(0x2), ReadmeEvent::Quit);
    assert_eq!(readme::wnd_proc(0x202), ReadmeEvent::Other);
}

#[test]
fn task_is_there_where_the_query_succeeds() {
    assert_eq!(query_args(), vec!["/Query", "/TN", "CapsLockSwitcherAutostart"]);
    assert!(is_enabled(Some(true)));
    assert!(!is_enabled(Some(false)));
    assert!(!is_enabled(None));
    assert!(toggle_target(false));
    assert!(!toggle_target(true));
}

#[test]
fn task_parameters() {
    assert_eq!(
        set_enabled(true, Some("C:\\a b\\caps.exe")).unwrap(),
        "/Create /TN \"CapsLockSwitcherAutostart\" /TR \"\\\"C:\\a b\\caps.exe\\\"\" /SC ONLOGON /RL HIGHEST /F"
    );
    let delete = "/Delete /TN \"CapsLockSwitcherAutostart\" /F";
    assert_eq!(set_enabled(false, None).unwrap(), delete);
    assert_eq!(set_enabled(false, Some("x")).unwrap(), delete);
    assert_eq!(set_enabled(true, None), None);
}

#[test]
fn launch_of_the_task_manager() {
    let launch = elevated_launch("/F");
    let text = |w: &[u16]| String::from_utf16(w).unwrap();
    assert_eq!(text(&launch.verb), "runas\0");
    assert_eq!(text(&launch.file), "schtasks.exe\0");
    assert_eq!(text(&launch.params), "/F\0");
}

#[test]
fn run_of_the_task_manager() {
    let run = |ok, has_process, got, code| {
        let mut steps = vec![RunStep::Launch];
        for reply in [
            RunReply::Launched { ok, has_process },
            RunReply::Returned,
            RunReply::ExitCode { got, code },
            RunReply::Returned,
        ] {
            let last = steps[steps.len() - 1];
            steps.push(run_elevated_schtasks(last, reply));
        }
        steps
    };
    assert_eq!(
        run(true, true, true, 0),
        vec![
            RunStep::Launch,
            RunStep::Wait,
            RunStep::ExitCode,
            RunStep::Close { succeeded: true },
            RunStep::Done { succeeded: true },
        ]
    );
    let failed = RunStep::Done { succeeded: false };
    assert_eq!(run(true, true, true, 1)[4], failed);
    assert_eq!(run(true, true, false, 0)[4], failed);
    assert_eq!(run(true, true, false, 0)[3], RunStep::Close { succeeded: false });
    assert_eq!(run(false, true, true, 0)[1], failed);
    assert_eq!(run(true, false, true, 0)[1], failed);
    assert_eq!(run_elevated_schtasks(RunStep::Wait, RunReply::ExitCode { got: true, code: 0 }), RunStep::Wait);
}

#[test]
fn bitmap_of_a_picture() {
    let size = (1usize << 32) + 10;
    let created = load_bitmap(LoadStep::CreateStream, LoadReply::Created(true), size);
    assert_eq!(created, LoadStep::Write { len: 10 });
    let written = load_bitmap(created, LoadReply::Returned, size);
    assert_eq!(written, LoadStep::Rewind);
    let rewound = load_bitmap(written, LoadReply::Returned, size);
    assert_eq!(rewound, LoadStep::Decode);
    assert_eq!(load_bitmap(rewound, LoadReply::Status(0), size), LoadStep::Loaded);
    assert_eq!(load_bitmap(rewound, LoadReply::Status(3), size), LoadStep::Failed);
    assert_eq!(
        load_bitmap(LoadStep::CreateStream, LoadReply::Created(false), size),
        LoadStep::Failed
    );
    assert_eq!(load_bitmap(LoadStep::Failed, LoadReply::Returned, size), LoadStep::Failed);
}
