use capslock_switcher::ime_toggle::{
    conv_call, current_conv_mode, detect_call, detect_current_display, ja_mode_from_conv,
    primary_lang, probe_context_read, probe_ime_wnd_conv, query, send_key_tap, send_scan_tap,
    tap_events, toggle_call, toggle_japanese, toggle_or_fallback, ConvStep, DetectStep, JaMode,
    KeyInput, PrimaryLang, Tap, ToggleCall, ToggleStep, CONV_ALPHA, CONV_HIRAGANA, CONV_KATAKANA,
    CONV_UNREAD, INJECTED_FLAG,
};
use capslock_switcher::overlay::{
    detect_language, language_call, probe_via_context, Indicator, LanguageStep,
};
use capslock_switcher::probe::{
    context_call, step_context, step_window, window_call, Call, ContextPlan, ContextStatus,
    ContextStep, ImeState, Reply, WindowStep,
};

const ZH: usize = 0x0804_0804;
const JA: usize = 0x0411_0411;
const KO: usize = 0x0412_0412;
const EN: usize = 0x0409_0409;

/// An input method that replies to every call.
#[derive(Clone, Copy)]
struct Ime {
    layout: Option<usize>,
    threads: (u32, u32),
    joins: bool,
    context: bool,
    open: bool,
    mode: Option<u32>,
    window: bool,
    open_answer: Option<usize>,
    mode_answer: Option<usize>,
}

impl Ime {
    /// Nothing can be read.
    fn mute(layout: usize) -> Ime {
        Ime {
            layout: Some(layout),
            threads: (7, 9),
            joins: false,
            context: false,
            open: false,
            mode: None,
            window: false,
            open_answer: None,
            mode_answer: None,
        }
    }

    fn by_context(layout: usize, open: bool, mode: u32) -> Ime {
        Ime { joins: true, context: true, open, mode: Some(mode), ..Ime::mute(layout) }
    }

    fn by_window(layout: usize, open: usize, mode: usize) -> Ime {
        Ime { window: true, open_answer: Some(open), mode_answer: Some(mode), ..Ime::mute(layout) }
    }

    fn reply(&self, call: Call) -> Reply {
        let answer = |a: Option<usize>| match a {
            Some(value) => Reply::Answer { ok: 1, value },
            None => Reply::Answer { ok: 0, value: 0 },
        };
        match call {
            Call::Foreground => Reply::Foreground(self.layout),
            Call::ThreadIds => {
                Reply::ThreadIds { foreground: self.threads.0, current: self.threads.1 }
            }
            Call::Attach => Reply::Flag(self.joins),
            Call::GetContext => Reply::Flag(self.context),
            Call::GetOpenStatus => Reply::Flag(self.open),
            Call::GetConversionStatus => {
                Reply::Conversion { got: self.mode.is_some(), mode: self.mode.unwrap_or(0) }
            }
            Call::ReleaseContext | Call::Detach => Reply::Returned,
            Call::FindImeWindow => Reply::Flag(self.window),
            Call::Query(5) => answer(self.open_answer),
            Call::Query(1) => answer(self.mode_answer),
            Call::Query(code) => panic!("unknown control code {code}"),
        }
    }

    fn context_calls(&self, plan: ContextPlan) -> (Vec<Call>, Option<ContextStatus>) {
        let mut step = ContextStep::ThreadIds;
        let mut calls = Vec::new();
        while let Some(call) = context_call(step) {
            calls.push(call);
            step = step_context(plan, step, self.reply(call));
        }
        match step {
            ContextStep::Finished { found } => (calls, found),
            _ => unreachable!(),
        }
    }

    fn toggle(&self, last: &mut u32) -> (ToggleStep, Vec<Tap>) {
        let mut step = ToggleStep::Foreground;
        let mut taps = Vec::new();
        let mut calls = 0;
        while let Some(call) = toggle_call(step) {
            let reply = match call {
                ToggleCall::Ask(call) => self.reply(call),
                ToggleCall::Inject(tap) => {
                    taps.push(tap);
                    Reply::Returned
                }
            };
            step = toggle_or_fallback(step, reply, last);
            calls += 1;
        }
        assert!(calls <= 11);
        (step, taps)
    }

    fn display(&self, last: &mut u32) -> Indicator {
        let mut step = DetectStep::Foreground;
        let mut calls = 0;
        while let Some(call) = detect_call(step) {
            step = detect_current_display(step, self.reply(call), last);
            calls += 1;
        }
        assert!(calls <= 11);
        match step {
            DetectStep::Done { shown } => shown,
            _ => unreachable!(),
        }
    }

    fn language(&self) -> (Indicator, Vec<Call>) {
        let mut step = LanguageStep::Foreground;
        let mut calls = Vec::new();
        while let Some(call) = language_call(step) {
            calls.push(call);
            step = detect_language(step, self.reply(call));
        }
        match step {
            LanguageStep::Done { shown } => (shown, calls),
            _ => unreachable!(),
        }
    }

    fn conv(&self, last: &mut u32) -> u32 {
        let mut step = ConvStep::Context(ContextStep::ThreadIds);
        while let Some(call) = conv_call(step) {
            step = current_conv_mode(step, self.reply(call), last);
        }
        match step {
            ConvStep::Done { conv } => conv,
            _ => unreachable!(),
        }
    }
}

#[test]
fn japanese_mode_by_its_bits() {
    assert_eq!(ja_mode_from_conv(0), JaMode::Alpha);
    assert_eq!(ja_mode_from_conv(0x8), JaMode::Alpha);
    assert_eq!(ja_mode_from_conv(0x2), JaMode::Alpha);
    assert_eq!(ja_mode_from_conv(0x9), JaMode::Hiragana);
    assert_eq!(ja_mode_from_conv(0x19), JaMode::Hiragana);
    assert_eq!(ja_mode_from_conv(0xB), JaMode::Katakana);
    assert_eq!(ja_mode_from_conv(0x3), JaMode::Katakana);
    assert_eq!(ja_mode_from_conv(u32::MAX), JaMode::Katakana);
}

#[test]
fn primary_language_is_the_low_ten_bits() {
    assert_eq!(primary_lang(ZH), PrimaryLang::Chinese);
    assert_eq!(primary_lang(0x0404), PrimaryLang::Chinese);
    assert_eq!(primary_lang(JA), PrimaryLang::Japanese);
    assert_eq!(primary_lang(0xE001_0411), PrimaryLang::Japanese);
    assert_eq!(primary_lang(KO), PrimaryLang::Korean);
    assert_eq!(primary_lang(EN), PrimaryLang::Other);
    assert_eq!(primary_lang(0), PrimaryLang::Other);
}

#[test]
fn key_tap_with_and_without_modifier() {
    let e = |vk: u16, flags: u32| KeyInput {
        vk,
        scan: 0,
        flags,
        time: 0,
        extra_info: INJECTED_FLAG,
    };
    assert_eq!(
        send_key_tap(0xA2, 0x20),
        vec![e(0xA2, 0), e(0x20, 0), e(0x20, 2), e(0xA2, 2)]
    );
    assert_eq!(send_key_tap(0, 0x14), vec![e(0x14, 0), e(0x14, 2)]);
}

#[test]
fn scan_tap_with_and_without_held_key() {
    let e = |scan: u16, flags: u32| KeyInput {
        vk: 0,
        scan,
        flags,
        time: 0,
        extra_info: INJECTED_FLAG,
    };
    assert_eq!(send_scan_tap(0x29, 0), vec![e(0x29, 8), e(0x29, 10)]);
    assert_eq!(
        send_scan_tap(0x1_0029, 0x38),
        vec![e(0x38, 8), e(0x29, 8), e(0x29, 10), e(0x38, 10)]
    );
    assert_eq!(tap_events(Tap::Scans { scan: 0x29, held: 0 }), send_scan_tap(0x29, 0));
    assert_eq!(tap_events(Tap::Keys { modifier: 1, key: 2 }), send_key_tap(1, 2));
}

#[test]
fn taps_mirror_presses_and_releases() {
    for tap in [
        Tap::Keys { modifier: 0xA4, key: 0x14 },
        Tap::Keys { modifier: 0, key: 0x14 },
        Tap::Scans { scan: 0x29, held: 0x1D },
    ] {
        let inputs = tap_events(tap);
        for i in 0..inputs.len() {
            let mirror = inputs[inputs.len() - 1 - i];
            assert_eq!(inputs[i].vk, mirror.vk);
            assert_eq!(inputs[i].scan, mirror.scan);
            assert_eq!(inputs[i].flags & 2 != 0, 2 * i >= inputs.len());
        }
    }
}

#[test]
fn unanswered_query_is_none() {
    assert_eq!(query(0, 5), None);
    assert_eq!(query(1, 5), Some(5));
    assert_eq!(query(-1, 0), Some(0));
    assert_eq!(probe_ime_wnd_conv(0, 9), None);
    assert_eq!(probe_ime_wnd_conv(1, (1usize << 32) + 9), Some(9));
}

#[test]
fn context_probe_puts_everything_back() {
    let both = ContextPlan { read_open: true, release: true };
    let ime = Ime::by_context(ZH, true, 1);
    let (calls, found) = ime.context_calls(both);
    assert_eq!(
        calls,
        vec![
            Call::ThreadIds,
            Call::Attach,
            Call::GetContext,
            Call::GetOpenStatus,
            Call::GetConversionStatus,
            Call::ReleaseContext,
            Call::Detach,
        ]
    );
    assert_eq!(found, Some(ContextStatus { open: true, got: true, mode: 1 }));

    // no context: the queues are still parted
    let none = Ime { context: false, ..ime };
    let (calls, found) = none.context_calls(both);
    assert_eq!(calls, vec![Call::ThreadIds, Call::Attach, Call::GetContext, Call::Detach]);
    assert_eq!(found, None);

    // not joined: not parted
    let apart = Ime { joins: false, ..none };
    let (calls, _) = apart.context_calls(both);
    assert_eq!(calls, vec![Call::ThreadIds, Call::Attach, Call::GetContext]);

    // one thread: neither joined nor parted
    let same = Ime { threads: (7, 7), ..ime };
    let (calls, found) = same.context_calls(ContextPlan { read_open: false, release: false });
    assert_eq!(calls, vec![Call::ThreadIds, Call::GetContext, Call::GetConversionStatus]);
    assert_eq!(found, Some(ContextStatus { open: false, got: true, mode: 1 }));
}

#[test]
fn reply_to_another_call_changes_nothing() {
    let plan = ContextPlan { read_open: true, release: true };
    assert_eq!(
        step_context(plan, ContextStep::ThreadIds, Reply::Flag(true)),
        ContextStep::ThreadIds
    );
    assert_eq!(step_window(WindowStep::Find, Reply::Returned), WindowStep::Find);
    let mut last = 3;
    assert_eq!(
        toggle_or_fallback(ToggleStep::Done, Reply::Returned, &mut last),
        ToggleStep::Done
    );
    assert_eq!(last, 3);
}

#[test]
fn window_probe_stops_at_the_first_unanswered_question() {
    let step = WindowStep::OpenStatus;
    assert_eq!(window_call(step), Some(Call::Query(5)));
    assert_eq!(
        step_window(step, Reply::Answer { ok: 0, value: 1 }),
        WindowStep::Finished { found: None }
    );
    let step = step_window(step, Reply::Answer { ok: 1, value: 1 });
    assert_eq!(step, WindowStep::ConversionMode { open: true });
    assert_eq!(window_call(step), Some(Call::Query(1)));
    assert_eq!(
        step_window(step, Reply::Answer { ok: 1, value: 2 }),
        WindowStep::Finished { found: Some(ImeState { open: true, native: false }) }
    );
}

#[test]
fn conversion_mode_falls_back_to_the_last_known() {
    let mut last = 0xB;
    assert_eq!(Ime::mute(JA).conv(&mut last), 0xB);
    assert_eq!(Ime::by_window(JA, 1, 0x9).conv(&mut last), 0x9);
    assert_eq!(last, 0x9);
    assert_eq!(Ime::by_context(JA, true, 0x1B).conv(&mut last), 0x1B);
    assert_eq!(last, 0x1B);
    // a window that does not answer
    let silent = Ime { window: true, ..Ime::mute(JA) };
    assert_eq!(silent.conv(&mut last), 0x1B);
    // a context that does not tell its mode is passed over for the window
    let half = Ime { mode: None, window: true, mode_answer: Some(0), ..Ime::by_context(JA, true, 1) };
    assert_eq!(half.conv(&mut last), 0);
}

#[test]
fn failed_reads_repeat_the_last_read() {
    let mut last = CONV_UNREAD;
    for _ in 0..4 {
        assert_eq!(Ime::mute(JA).conv(&mut last), 0);
    }
    assert_eq!(Ime::by_context(JA, true, 0x1B).conv(&mut last), 0x1B);
    for _ in 0..4 {
        assert_eq!(Ime::mute(JA).conv(&mut last), 0x1B);
    }
}

#[test]
fn switch_without_a_foreground_window_does_nothing() {
    let mut last = 5;
    let nobody = Ime { layout: None, ..Ime::mute(JA) };
    assert_eq!(nobody.toggle(&mut last), (ToggleStep::Ignored, vec![]));
    assert_eq!(last, 5);
}

#[test]
fn other_layouts_are_switched_by_ctrl_space() {
    for layout in [ZH, KO, EN] {
        let mut last = 5;
        assert_eq!(
            Ime::by_context(layout, true, 1).toggle(&mut last),
            (ToggleStep::Done, vec![Tap::Keys { modifier: 0xA2, key: 0x20 }])
        );
        assert_eq!(last, 5);
    }
}

#[test]
fn japanese_taps() {
    assert_eq!(
        toggle_japanese(CONV_ALPHA),
        (Tap::Keys { modifier: 0xA2, key: 0x14 }, CONV_HIRAGANA)
    );
    assert_eq!(
        toggle_japanese(CONV_HIRAGANA),
        (Tap::Keys { modifier: 0xA4, key: 0x14 }, CONV_KATAKANA)
    );
    assert_eq!(
        toggle_japanese(CONV_KATAKANA),
        (Tap::Scans { scan: 0x29, held: 0 }, CONV_ALPHA)
    );
}

#[test]
fn three_unreadable_switches_go_around() {
    let ime = Ime::mute(JA);
    let mut last = 0;
    let mut modes = Vec::new();
    let mut shown = Vec::new();
    for _ in 0..3 {
        let (step, taps) = ime.toggle(&mut last);
        assert_eq!(step, ToggleStep::Done);
        assert_eq!(taps.len(), 1);
        modes.push(ja_mode_from_conv(last));
        shown.push(ime.display(&mut last));
    }
    assert_eq!(modes, vec![JaMode::Hiragana, JaMode::Katakana, JaMode::Alpha]);
    assert_eq!(shown, vec![Indicator::JaHiragana, Indicator::JaKatakana, Indicator::En]);
}

#[test]
fn readable_switch_goes_by_what_was_read() {
    let mut last = 0;
    let (_, taps) = Ime::by_context(JA, true, 0xB).toggle(&mut last);
    assert_eq!(taps, vec![Tap::Scans { scan: 0x29, held: 0 }]);
    assert_eq!(last, CONV_ALPHA);
}

#[test]
fn display_of_chinese_and_korean() {
    let mut last = 7;
    assert_eq!(Ime::by_context(ZH, true, 1).display(&mut last), Indicator::Zh);
    assert_eq!(Ime::by_context(ZH, false, 1).display(&mut last), Indicator::En);
    assert_eq!(Ime::by_context(ZH, true, 2).display(&mut last), Indicator::En);
    assert_eq!(Ime::by_window(ZH, 1, 1).display(&mut last), Indicator::Zh);
    assert_eq!(Ime::by_window(ZH, 0, 1).display(&mut last), Indicator::En);
    assert_eq!(Ime::mute(ZH).display(&mut last), Indicator::En);
    assert_eq!(Ime::by_context(KO, false, 1).display(&mut last), Indicator::Ko);
    assert_eq!(Ime::by_window(KO, 0, 0).display(&mut last), Indicator::En);
    assert_eq!(Ime::mute(KO).display(&mut last), Indicator::En);
    assert_eq!(last, 7);
}

#[test]
fn display_of_other_layouts_is_english() {
    let mut last = 0;
    assert_eq!(Ime::by_context(EN, true, 1).display(&mut last), Indicator::En);
    let nobody = Ime { layout: None, ..Ime::by_context(ZH, true, 1) };
    assert_eq!(nobody.display(&mut last), Indicator::En);
}

#[test]
fn display_of_japanese_modes() {
    let mut last = 0;
    assert_eq!(Ime::by_context(JA, false, 0x9).display(&mut last), Indicator::JaHiragana);
    assert_eq!(last, 0x9);
    assert_eq!(Ime::by_window(JA, 0, 0xB).display(&mut last), Indicator::JaKatakana);
    assert_eq!(Ime::mute(JA).display(&mut last), Indicator::JaKatakana);
    assert_eq!(Ime::by_context(JA, true, 0).display(&mut last), Indicator::En);
}

#[test]
fn state_of_a_context() {
    let status = ContextStatus { open: true, got: true, mode: 3 };
    let state = Some(ImeState { open: true, native: true });
    assert_eq!(probe_context_read(Some(status)), state);
    assert_eq!(probe_via_context(Some(status)), state);
    let untold = ContextStatus { got: false, ..status };
    assert_eq!(probe_context_read(Some(untold)), None);
    assert_eq!(probe_via_context(Some(untold)), Some(ImeState { open: true, native: false }));
    assert_eq!(probe_context_read(None), None);
    assert_eq!(probe_via_context(None), None);
}

#[test]
fn language_by_state() {
    assert_eq!(Ime::by_context(ZH, true, 1).language().0, Indicator::Zh);
    assert_eq!(Ime::by_context(ZH, false, 1).language().0, Indicator::En);
    assert_eq!(Ime::by_context(JA, true, 0x9).language().0, Indicator::Ja);
    assert_eq!(Ime::by_context(JA, true, 0x8).language().0, Indicator::En);
    assert_eq!(Ime::by_window(JA, 0, 1).language().0, Indicator::En);
    assert_eq!(Ime::by_window(KO, 0, 1).language().0, Indicator::Ko);
    assert_eq!(Ime::by_context(EN, true, 1).language().0, Indicator::En);
    // a context that does not tell its mode counts as not native
    let untold = Ime { mode: None, ..Ime::by_context(ZH, true, 1) };
    assert_eq!(untold.language().0, Indicator::En);
}

#[test]
fn unreadable_language_is_that_of_the_layout() {
    assert_eq!(Ime::mute(ZH).language().0, Indicator::Zh);
    assert_eq!(Ime::mute(JA).language().0, Indicator::Ja);
    assert_eq!(Ime::mute(KO).language().0, Indicator::Ko);
    assert_eq!(Ime::mute(EN).language().0, Indicator::En);
    let nobody = Ime { layout: None, ..Ime::mute(ZH) };
    assert_eq!(nobody.language(), (Indicator::En, vec![Call::Foreground]));
}

#[test]
fn second_channel_is_asked_only_after_the_first() {
    let (_, calls) = Ime::by_context(ZH, true, 1).language();
    assert!(!calls.contains(&Call::FindImeWindow));
    assert!(!calls.contains(&Call::ReleaseContext));
    let (_, calls) = Ime::by_window(ZH, 1, 1).language();
    assert_eq!(
        calls[calls.len() - 3..],
        [Call::FindImeWindow, Call::Query(5), Call::Query(1)]
    );
}
