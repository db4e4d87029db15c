//! Which calls switching and detecting make, in which order, and what comes of each run, told by
//! the replies alone.

use vstd::prelude::*;

use crate::ime_toggle::{ConvStep, DetectStep, StateStep, Tap, ToggleCall, ToggleStep};
use crate::overlay::{Indicator, LanguageStep};
use crate::probe::{Call, ContextPlan, ContextStep, Outside, Reply, WindowStep};
use crate::win32::{VK_CAPITAL, VK_LCONTROL, VK_LMENU, VK_SPACE};

verus! {

// ---- results ----

/// A reading of the conversion mode gives the mode of the context where there is one that tells
/// it, else the low 32 bits of what the window answers, else the last known mode; and what it
/// gives is known from then on.
pub proof fn law_reading_gives_what_was_told(o: Outside, last: u32, n: nat)
    requires
        n >= 9,
    ensures
        ({
            let (step, known) = crate::ime_laws::conv_run(
                o,
                ConvStep::Context(ContextStep::ThreadIds),
                last,
                n,
            );
            &&& step == (ConvStep::Done { conv: known })
            &&& o.has_context && o.got ==> known == o.mode
            &&& !(o.has_context && o.got) && o.has_window && o.mode_ok != 0 ==> known
                == o.mode_value as int % 0x1_0000_0000
            &&& !(o.has_context && o.got) && !(o.has_window && o.mode_ok != 0) ==> known == last
        }),
{
    crate::ime_laws::law_conversion_mode_falls_back_to_the_last_known(o, last, n);
}

/// A reading of the state gives that of the context where there is one that tells its conversion
/// mode, else that of the window where it answers both questions, else open and not native.
pub proof fn law_state_is_what_was_told(o: Outside, n: nat)
    requires
        n >= 10,
    ensures
        ({
            let run = crate::ime_laws::state_run(o, StateStep::Context(ContextStep::ThreadIds), n);
            let by_context = o.has_context && o.got;
            let by_window = o.has_window && o.open_ok != 0 && o.mode_ok != 0;
            &&& run is Done
            &&& by_context ==> run->state.open == o.open && run->state.native == (o.mode % 2 == 1)
            &&& !by_context && by_window ==> run->state.open == (o.open_value != 0)
                && run->state.native == (o.mode_value % 2 == 1)
            &&& !by_context && !by_window ==> run->state.open && !run->state.native
        }),
{
    crate::ime_laws::law_unreadable_state_counts_as_latin(o, n);
}

/// Without a foreground window a switch injects nothing and forgets nothing. Under a layout that
/// is not Japanese it injects Ctrl+Space, once, and leaves the last known mode alone.
pub proof fn law_switch_outside_japanese(o: Outside, last: u32, n: nat)
    requires
        n >= 11,
    ensures
        ({
            let (step, taps, known) = crate::ime_laws::toggle_run(
                o,
                ToggleStep::Foreground,
                last,
                n,
            );
            &&& o.layout is None ==> step == ToggleStep::Ignored && taps.len() == 0 && known == last
            &&& o.layout matches Some(layout) ==> layout % 0x400 != 0x11 ==> {
                let inputs = crate::ime_toggle::tap_inputs(taps[0]);
                &&& step == ToggleStep::Done
                &&& taps.len() == 1
                &&& known == last
                &&& inputs.len() == 4
                &&& inputs[0].vk == VK_LCONTROL && inputs[0].flags == 0
                &&& inputs[1].vk == VK_SPACE && inputs[1].flags == 0
                &&& inputs[2].vk == VK_SPACE && inputs[2].flags == 0x2
                &&& inputs[3].vk == VK_LCONTROL && inputs[3].flags == 0x2
            }
        }),
{
    crate::ime_laws::law_switch_injects_one_tap(o, last, n);
}

/// Under a Japanese layout a switch injects one tap, by the mode that a reading gives: in direct
/// input Ctrl+CapsLock, and hiragana is expected; in hiragana Alt+CapsLock, and katakana is
/// expected; in katakana the half-width/full-width key, and direct input is expected.
pub proof fn law_switch_in_japanese(o: Outside, last: u32, n: nat)
    requires
        n >= 11,
        o.layout is Some,
        o.layout.unwrap() % 0x400 == 0x11,
    ensures
        ({
            let conv = crate::ime_laws::conv_run(
                o,
                ConvStep::Context(ContextStep::ThreadIds),
                last,
                9,
            ).1;
            let (step, taps, known) = crate::ime_laws::toggle_run(
                o,
                ToggleStep::Foreground,
                last,
                n,
            );
            let inputs = crate::ime_toggle::tap_inputs(taps[0]);
            let held = if conv % 2 == 0 {
                VK_LCONTROL
            } else {
                VK_LMENU
            };
            &&& step == ToggleStep::Done
            &&& taps.len() == 1
            &&& conv % 2 == 0 ==> known == 0x9
            &&& conv % 4 == 1 ==> known == 0xB
            &&& conv % 4 == 3 ==> known == 0
            &&& conv % 4 != 3 ==> {
                &&& inputs.len() == 4
                &&& inputs[0].vk == held && inputs[0].flags == 0
                &&& inputs[1].vk == VK_CAPITAL && inputs[1].flags == 0
                &&& inputs[2].vk == VK_CAPITAL && inputs[2].flags == 0x2
                &&& inputs[3].vk == held && inputs[3].flags == 0x2
            }
            &&& conv % 4 == 3 ==> {
                &&& inputs.len() == 2
                &&& inputs[0].vk == 0 && inputs[0].scan == 0x29 && inputs[0].flags == 0x8
                &&& inputs[1].vk == 0 && inputs[1].scan == 0x29 && inputs[1].flags == 0xA
            }
        }),
{
    crate::ime_laws::law_conversion_mode_falls_back_to_the_last_known(o, last, 9);
    crate::ime_laws::law_switch_injects_one_tap(o, last, n);
    crate::ime_toggle::law_keys_of_each_step(crate::ime_laws::conv_read(o, last) as int);
}

/// Under a Korean layout the detection shows Korean exactly where the conversion mode that was
/// told has its native bit, and English elsewhere. How the open status is answered makes no
/// difference.
pub proof fn law_korean_goes_by_the_native_bit(
    o: Outside,
    open: bool,
    open_value: usize,
    last: u32,
    n: nat,
)
    requires
        n >= 11,
        o.layout is Some,
        o.layout.unwrap() % 0x400 == 0x12,
    ensures
        ({
            let (step, known) = crate::ime_laws::detect_run(o, DetectStep::Foreground, last, n);
            let by_context = o.has_context && o.got;
            let by_window = o.has_window && o.open_ok != 0 && o.mode_ok != 0;
            &&& by_context ==> (step == (DetectStep::Done { shown: Indicator::Ko }) <==> o.mode % 2
                == 1)
            &&& !by_context && by_window ==> (step == (DetectStep::Done { shown: Indicator::Ko })
                <==> o.mode_value % 2 == 1)
            &&& !by_context && !by_window ==> step != (DetectStep::Done { shown: Indicator::Ko })
            &&& step != (DetectStep::Done { shown: Indicator::Ko }) ==> step == (DetectStep::Done {
                shown: Indicator::En,
            })
            &&& known == last
            &&& crate::ime_laws::detect_run(
                Outside { open, open_value, ..o },
                DetectStep::Foreground,
                last,
                n,
            ) == (
                step,
                known,
            )
        }),
{
    crate::ime_laws::law_detection_shows_what_was_read(o, last, n);
    crate::ime_laws::law_detection_shows_what_was_read(
        Outside { open, open_value, ..o },
        last,
        n,
    );
}

/// Under a Chinese layout the detection shows Chinese exactly where the input method was told to
/// be open and native, and English elsewhere.
pub proof fn law_chinese_must_be_open_and_native(o: Outside, last: u32, n: nat)
    requires
        n >= 11,
        o.layout is Some,
        o.layout.unwrap() % 0x400 == 0x04,
    ensures
        ({
            let (step, known) = crate::ime_laws::detect_run(o, DetectStep::Foreground, last, n);
            let by_context = o.has_context && o.got;
            let by_window = o.has_window && o.open_ok != 0 && o.mode_ok != 0;
            let chinese = if by_context {
                o.open && o.mode % 2 == 1
            } else {
                by_window && o.open_value != 0 && o.mode_value % 2 == 1
            };
            &&& chinese ==> step == (DetectStep::Done { shown: Indicator::Zh })
            &&& !chinese ==> step == (DetectStep::Done { shown: Indicator::En })
            &&& known == last
        }),
{
    crate::ime_laws::law_detection_shows_what_was_read(o, last, n);
}

/// Under a Japanese layout the detection shows the mode that a reading gives, and that is known
/// from then on. Whether the input method is open is not asked.
pub proof fn law_japanese_goes_by_the_mode(
    o: Outside,
    open: bool,
    open_ok: isize,
    open_value: usize,
    last: u32,
    n: nat,
)
    requires
        n >= 11,
        o.layout is Some,
        o.layout.unwrap() % 0x400 == 0x11,
    ensures
        ({
            let conv = crate::ime_laws::conv_run(
                o,
                ConvStep::Context(ContextStep::ThreadIds),
                last,
                9,
            ).1;
            let (step, known) = crate::ime_laws::detect_run(o, DetectStep::Foreground, last, n);
            &&& conv % 2 == 0 ==> step == (DetectStep::Done { shown: Indicator::En })
            &&& conv % 4 == 1 ==> step == (DetectStep::Done { shown: Indicator::JaHiragana })
            &&& conv % 4 == 3 ==> step == (DetectStep::Done { shown: Indicator::JaKatakana })
            &&& known == conv
            &&& crate::ime_laws::detect_run(
                Outside { open, open_ok, open_value, ..o },
                DetectStep::Foreground,
                last,
                n,
            ) == (step, known)
        }),
{
    crate::ime_laws::law_conversion_mode_falls_back_to_the_last_known(o, last, 9);
    crate::ime_laws::law_detection_shows_what_was_read(o, last, n);
    crate::ime_laws::law_detection_shows_what_was_read(
        Outside { open, open_ok, open_value, ..o },
        last,
        n,
    );
}

/// Without a foreground window, and under any other layout, the detection shows English.
pub proof fn law_other_layouts_are_english(o: Outside, last: u32, n: nat)
    requires
        n >= 11,
        o.layout matches Some(layout) ==> {
            let id = layout % 0x400;
            id != 0x04 && id != 0x11 && id != 0x12
        },
    ensures
        crate::ime_laws::detect_run(o, DetectStep::Foreground, last, n) == (
            DetectStep::Done { shown: Indicator::En },
            last,
        ),
{
    crate::ime_laws::law_detection_shows_what_was_read(o, last, n);
}

// ---- calls ----

/// The calls that a reading of the conversion mode makes, `n` at most.
pub open spec fn conv_calls(o: Outside, step: ConvStep, last: u32, n: nat) -> Seq<Call>
    decreases n,
{
    match crate::ime_toggle::conv_call_of(step) {
        Some(call) if n > 0 => {
            let (next, known) = crate::ime_toggle::conv_next(
                step,
                crate::probe::reply_of(o, call),
                last,
            );
            seq![call] + conv_calls(o, next, known, (n - 1) as nat)
        },
        _ => Seq::empty(),
    }
}

/// The calls that a reading of the state makes, `n` at most.
pub open spec fn state_calls(o: Outside, step: StateStep, n: nat) -> Seq<Call>
    decreases n,
{
    match crate::ime_toggle::state_call_of(step) {
        Some(call) if n > 0 => {
            let next = crate::ime_toggle::state_next(step, crate::probe::reply_of(o, call));
            seq![call] + state_calls(o, next, (n - 1) as nat)
        },
        _ => Seq::empty(),
    }
}

/// The calls that a detection makes, `n` at most.
pub open spec fn detect_calls(o: Outside, step: DetectStep, last: u32, n: nat) -> Seq<Call>
    decreases n,
{
    match crate::ime_toggle::detect_call_of(step) {
        Some(call) if n > 0 => {
            let (next, known) = crate::ime_toggle::detect_next(
                step,
                crate::probe::reply_of(o, call),
                last,
            );
            seq![call] + detect_calls(o, next, known, (n - 1) as nat)
        },
        _ => Seq::empty(),
    }
}

/// The calls that a detection of the language makes, `n` at most.
pub open spec fn language_calls(o: Outside, step: LanguageStep, n: nat) -> Seq<Call>
    decreases n,
{
    match crate::overlay::language_call_of(step) {
        Some(call) if n > 0 => {
            let next = crate::overlay::language_next(step, crate::probe::reply_of(o, call));
            seq![call] + language_calls(o, next, (n - 1) as nat)
        },
        _ => Seq::empty(),
    }
}

/// What a switch asks and injects, in order, `n` times at most.
pub open spec fn toggle_calls(o: Outside, step: ToggleStep, last: u32, n: nat) -> Seq<ToggleCall>
    decreases n,
{
    match crate::ime_toggle::toggle_call_of(step) {
        Some(call) if n > 0 => {
            let reply = match call {
                ToggleCall::Ask(asked) => crate::probe::reply_of(o, asked),
                ToggleCall::Inject(_) => Reply::Returned,
            };
            let (next, known) = crate::ime_toggle::toggle_next(step, reply, last);
            seq![call] + toggle_calls(o, next, known, (n - 1) as nat)
        },
        _ => Seq::empty(),
    }
}

proof fn conv_calls_through_context(o: Outside, inner: ContextStep, last: u32, k: nat, n: nat)
    requires
        crate::probe::context_call_of(inner) is Some,
        crate::probe::context_run(crate::ime_toggle::conv_plan(), o, inner, k).1
            == (ContextStep::Finished {
            found: crate::probe::context_found(crate::ime_toggle::conv_plan(), o),
        }),
        n >= k + 2,
    ensures
        conv_calls(o, ConvStep::Context(inner), last, n) == crate::probe::context_run(
            crate::ime_toggle::conv_plan(),
            o,
            inner,
            k,
        ).0 + (if o.has_context && o.got {
            Seq::<Call>::empty()
        } else if o.has_window {
            seq![Call::FindImeWindow, Call::Query(1)]
        } else {
            seq![Call::FindImeWindow]
        }),
    decreases k,
{
    reveal_with_fuel(crate::probe::context_run, 2);
    let plan = crate::ime_toggle::conv_plan();
    let call = crate::probe::context_call_of(inner).unwrap();
    let next = crate::probe::context_next(plan, inner, crate::probe::reply_of(o, call));
    let tail = if o.has_context && o.got {
        Seq::<Call>::empty()
    } else if o.has_window {
        seq![Call::FindImeWindow, Call::Query(1)]
    } else {
        seq![Call::FindImeWindow]
    };
    if crate::probe::context_call_of(next) is Some {
        conv_calls_through_context(o, next, last, (k - 1) as nat, (n - 1) as nat);
    } else {
        reveal_with_fuel(conv_calls, 4);
    }
    assert(conv_calls(o, ConvStep::Context(inner), last, n) =~= crate::probe::context_run(
        plan,
        o,
        inner,
        k,
    ).0 + tail);
}

/// A reading of the conversion mode does not ask whether the input method is open. It gives back
/// every context that it got and parts the queues that it joined, and all that before it turns to
/// the window; and it turns there only where the context did not tell.
pub proof fn law_calls_of_a_reading(o: Outside, last: u32, n: nat)
    requires
        n >= 9,
    ensures
        ({
            let none = Seq::<Call>::empty();
            let other_thread = o.foreground_thread != o.current_thread;
            conv_calls(o, ConvStep::Context(ContextStep::ThreadIds), last, n) == seq![
                Call::ThreadIds,
            ] + (if other_thread {
                seq![Call::Attach]
            } else {
                none
            }) + seq![Call::GetContext] + (if o.has_context {
                seq![Call::GetConversionStatus, Call::ReleaseContext]
            } else {
                none
            }) + (if other_thread && o.joins {
                seq![Call::Detach]
            } else {
                none
            }) + (if o.has_context && o.got {
                none
            } else if o.has_window {
                seq![Call::FindImeWindow, Call::Query(1)]
            } else {
                seq![Call::FindImeWindow]
            })
        }),
{
    let plan = crate::ime_toggle::conv_plan();
    crate::probe::law_context_probe_makes_these_calls(plan, o, 7);
    conv_calls_through_context(o, ContextStep::ThreadIds, last, 7, n);
    let other_thread = o.foreground_thread != o.current_thread;
    let none = Seq::<Call>::empty();
    assert(crate::probe::context_run(plan, o, ContextStep::ThreadIds, 7).0 =~= seq![
        Call::ThreadIds,
    ] + (if other_thread {
        seq![Call::Attach]
    } else {
        none
    }) + seq![Call::GetContext] + (if o.has_context {
        seq![Call::GetConversionStatus, Call::ReleaseContext]
    } else {
        none
    }) + (if other_thread && o.joins {
        seq![Call::Detach]
    } else {
        none
    }));
}

proof fn state_calls_through_context(o: Outside, inner: ContextStep, k: nat, n: nat)
    requires
        crate::probe::context_call_of(inner) is Some,
        crate::probe::context_run(crate::ime_toggle::state_plan(), o, inner, k).1
            == (ContextStep::Finished {
            found: crate::probe::context_found(crate::ime_toggle::state_plan(), o),
        }),
        n >= k + 3,
    ensures
        state_calls(o, StateStep::Context(inner), n) == crate::probe::context_run(
            crate::ime_toggle::state_plan(),
            o,
            inner,
            k,
        ).0 + (if o.has_context && o.got {
            Seq::<Call>::empty()
        } else if o.has_window && o.open_ok != 0 {
            seq![Call::FindImeWindow, Call::Query(5), Call::Query(1)]
        } else if o.has_window {
            seq![Call::FindImeWindow, Call::Query(5)]
        } else {
            seq![Call::FindImeWindow]
        }),
    decreases k,
{
    reveal_with_fuel(crate::probe::context_run, 2);
    let plan = crate::ime_toggle::state_plan();
    let call = crate::probe::context_call_of(inner).unwrap();
    let next = crate::probe::context_next(plan, inner, crate::probe::reply_of(o, call));
    let tail = if o.has_context && o.got {
        Seq::<Call>::empty()
    } else if o.has_window && o.open_ok != 0 {
        seq![Call::FindImeWindow, Call::Query(5), Call::Query(1)]
    } else if o.has_window {
        seq![Call::FindImeWindow, Call::Query(5)]
    } else {
        seq![Call::FindImeWindow]
    };
    if crate::probe::context_call_of(next) is Some {
        state_calls_through_context(o, next, (k - 1) as nat, (n - 1) as nat);
    } else {
        reveal_with_fuel(state_calls, 5);
    }
    assert(state_calls(o, StateStep::Context(inner), n) =~= crate::probe::context_run(
        plan,
        o,
        inner,
        k,
    ).0 + tail);
}

/// A reading of the state asks the context for both, gives back every context that it got and
/// parts the queues that it joined, before it turns to the window. There the first question that
/// stays unanswered is the last.
pub proof fn law_calls_of_a_state_reading(o: Outside, n: nat)
    requires
        n >= 10,
    ensures
        ({
            let none = Seq::<Call>::empty();
            let other_thread = o.foreground_thread != o.current_thread;
            state_calls(o, StateStep::Context(ContextStep::ThreadIds), n) == seq![Call::ThreadIds]
                + (if other_thread {
                seq![Call::Attach]
            } else {
                none
            }) + seq![Call::GetContext] + (if o.has_context {
                seq![Call::GetOpenStatus, Call::GetConversionStatus, Call::ReleaseContext]
            } else {
                none
            }) + (if other_thread && o.joins {
                seq![Call::Detach]
            } else {
                none
            }) + (if o.has_context && o.got {
                none
            } else if o.has_window && o.open_ok != 0 {
                seq![Call::FindImeWindow, Call::Query(5), Call::Query(1)]
            } else if o.has_window {
                seq![Call::FindImeWindow, Call::Query(5)]
            } else {
                seq![Call::FindImeWindow]
            })
        }),
{
    let plan = crate::ime_toggle::state_plan();
    crate::probe::law_context_probe_makes_these_calls(plan, o, 7);
    state_calls_through_context(o, ContextStep::ThreadIds, 7, n);
    let other_thread = o.foreground_thread != o.current_thread;
    let none = Seq::<Call>::empty();
    assert(crate::probe::context_run(plan, o, ContextStep::ThreadIds, 7).0 =~= seq![
        Call::ThreadIds,
    ] + (if other_thread {
        seq![Call::Attach]
    } else {
        none
    }) + seq![Call::GetContext] + (if o.has_context {
        seq![Call::GetOpenStatus, Call::GetConversionStatus, Call::ReleaseContext]
    } else {
        none
    }) + (if other_thread && o.joins {
        seq![Call::Detach]
    } else {
        none
    }));
}

proof fn language_calls_through_context(
    o: Outside,
    lang: crate::ime_toggle::PrimaryLang,
    inner: ContextStep,
    k: nat,
    n: nat,
)
    requires
        crate::probe::context_call_of(inner) is Some,
        crate::probe::context_run(crate::overlay::language_plan(), o, inner, k).1
            == (ContextStep::Finished {
            found: crate::probe::context_found(crate::overlay::language_plan(), o),
        }),
        n >= k + 3,
    ensures
        language_calls(o, LanguageStep::Context { lang, inner }, n) == crate::probe::context_run(
            crate::overlay::language_plan(),
            o,
            inner,
            k,
        ).0 + (if o.has_context {
            Seq::<Call>::empty()
        } else if o.has_window && o.open_ok != 0 {
            seq![Call::FindImeWindow, Call::Query(5), Call::Query(1)]
        } else if o.has_window {
            seq![Call::FindImeWindow, Call::Query(5)]
        } else {
            seq![Call::FindImeWindow]
        }),
    decreases k,
{
    reveal_with_fuel(crate::probe::context_run, 2);
    let plan = crate::overlay::language_plan();
    let call = crate::probe::context_call_of(inner).unwrap();
    let next = crate::probe::context_next(plan, inner, crate::probe::reply_of(o, call));
    let tail = if o.has_context {
        Seq::<Call>::empty()
    } else if o.has_window && o.open_ok != 0 {
        seq![Call::FindImeWindow, Call::Query(5), Call::Query(1)]
    } else if o.has_window {
        seq![Call::FindImeWindow, Call::Query(5)]
    } else {
        seq![Call::FindImeWindow]
    };
    if crate::probe::context_call_of(next) is Some {
        language_calls_through_context(o, lang, next, (k - 1) as nat, (n - 1) as nat);
    } else {
        reveal_with_fuel(language_calls, 5);
    }
    assert(language_calls(o, LanguageStep::Context { lang, inner }, n)
        =~= crate::probe::context_run(plan, o, inner, k).0 + tail);
}

/// The detection of the language asks for the foreground window first, and for no more where
/// there is none. Then it asks the context for both, parts the queues that it joined, and turns
/// to the window only where there was no context.
pub proof fn law_calls_of_a_language_detection(o: Outside, n: nat)
    requires
        n >= 11,
    ensures
        ({
            let none = Seq::<Call>::empty();
            let other_thread = o.foreground_thread != o.current_thread;
            let calls = language_calls(o, LanguageStep::Foreground, n);
            &&& o.layout is None ==> calls == seq![Call::Foreground]
            &&& o.layout is Some ==> calls == seq![Call::Foreground, Call::ThreadIds] + (
            if other_thread {
                seq![Call::Attach]
            } else {
                none
            }) + seq![Call::GetContext] + (if o.has_context {
                seq![Call::GetOpenStatus, Call::GetConversionStatus]
            } else {
                none
            }) + (if other_thread && o.joins {
                seq![Call::Detach]
            } else {
                none
            }) + (if o.has_context {
                none
            } else if o.has_window && o.open_ok != 0 {
                seq![Call::FindImeWindow, Call::Query(5), Call::Query(1)]
            } else if o.has_window {
                seq![Call::FindImeWindow, Call::Query(5)]
            } else {
                seq![Call::FindImeWindow]
            })
        }),
{
    reveal_with_fuel(language_calls, 2);
    let none = Seq::<Call>::empty();
    let calls = language_calls(o, LanguageStep::Foreground, n);
    if o.layout is None {
        assert(calls =~= seq![Call::Foreground]);
    } else {
        let plan = crate::overlay::language_plan();
        let other_thread = o.foreground_thread != o.current_thread;
        crate::probe::law_context_probe_makes_these_calls(plan, o, 7);
        language_calls_through_context(
            o,
            crate::ime_toggle::primary_lang_of(o.layout.unwrap() as int),
            ContextStep::ThreadIds,
            7,
            (n - 1) as nat,
        );
        assert(seq![Call::Foreground] + crate::probe::context_run(
            plan,
            o,
            ContextStep::ThreadIds,
            7,
        ).0 =~= seq![Call::Foreground, Call::ThreadIds] + (if other_thread {
            seq![Call::Attach]
        } else {
            none
        }) + seq![Call::GetContext] + (if o.has_context {
            seq![Call::GetOpenStatus, Call::GetConversionStatus]
        } else {
            none
        }) + (if other_thread && o.joins {
            seq![Call::Detach]
        } else {
            none
        }));
        assert(calls =~= seq![Call::Foreground] + crate::probe::context_run(
            plan,
            o,
            ContextStep::ThreadIds,
            7,
        ).0 + (if o.has_context {
            none
        } else if o.has_window && o.open_ok != 0 {
            seq![Call::FindImeWindow, Call::Query(5), Call::Query(1)]
        } else if o.has_window {
            seq![Call::FindImeWindow, Call::Query(5)]
        } else {
            seq![Call::FindImeWindow]
        }));
    }
}

proof fn detect_calls_are_those_of_the_reading(
    o: Outside,
    conv: ConvStep,
    state: StateStep,
    last: u32,
    n: nat,
)
    ensures
        crate::ime_toggle::conv_call_of(conv) is Some ==> detect_calls(
            o,
            DetectStep::Japanese(conv),
            last,
            n,
        ) == conv_calls(o, conv, last, n),
        crate::ime_toggle::state_call_of(state) is Some ==> detect_calls(
            o,
            DetectStep::Chinese(state),
            last,
            n,
        ) == state_calls(o, state, n) && detect_calls(o, DetectStep::Korean(state), last, n)
            == state_calls(o, state, n),
    decreases n,
{
    if n > 0 {
        let m = (n - 1) as nat;
        let (conv2, known) = match crate::ime_toggle::conv_call_of(conv) {
            Some(call) => crate::ime_toggle::conv_next(
                conv,
                crate::probe::reply_of(o, call),
                last,
            ),
            None => (conv, last),
        };
        let state2 = match crate::ime_toggle::state_call_of(state) {
            Some(call) => crate::ime_toggle::state_next(state, crate::probe::reply_of(o, call)),
            None => state,
        };
        detect_calls_are_those_of_the_reading(o, conv2, state2, known, m);
        detect_calls_are_those_of_the_reading(o, conv2, state2, last, m);
        reveal_with_fuel(detect_calls, 2);
        reveal_with_fuel(conv_calls, 2);
        reveal_with_fuel(state_calls, 2);
    }
}

/// A detection asks for the foreground window, and then for what its language needs: under a
/// Japanese layout it reads the conversion mode, under a Chinese or Korean one the state, and
/// under any other, or without a window, it asks for no more.
pub proof fn law_calls_of_a_detection(o: Outside, last: u32, n: nat)
    requires
        n >= 11,
    ensures
        ({
            let calls = detect_calls(o, DetectStep::Foreground, last, n);
            let m = (n - 1) as nat;
            &&& o.layout is None ==> calls == seq![Call::Foreground]
            &&& o.layout matches Some(layout) ==> {
                let id = layout % 0x400;
                &&& id == 0x11 ==> calls == seq![Call::Foreground] + conv_calls(
                    o,
                    ConvStep::Context(ContextStep::ThreadIds),
                    last,
                    m,
                )
                &&& id == 0x04 || id == 0x12 ==> calls == seq![Call::Foreground] + state_calls(
                    o,
                    StateStep::Context(ContextStep::ThreadIds),
                    m,
                )
                &&& id != 0x04 && id != 0x11 && id != 0x12 ==> calls == seq![Call::Foreground]
            }
        }),
{
    reveal_with_fuel(detect_calls, 2);
    detect_calls_are_those_of_the_reading(
        o,
        ConvStep::Context(ContextStep::ThreadIds),
        StateStep::Context(ContextStep::ThreadIds),
        last,
        (n - 1) as nat,
    );
    assert(seq![Call::Foreground] + Seq::<Call>::empty() =~= seq![Call::Foreground]);
}

proof fn toggle_calls_through_reading(o: Outside, inner: ConvStep, last: u32, k: nat, n: nat)
    requires
        crate::ime_toggle::conv_call_of(inner) is Some,
        crate::ime_laws::conv_run(o, inner, last, k).0 is Done,
        n >= k + 1,
    ensures
        ({
            let asked = conv_calls(o, inner, last, k);
            let conv = crate::ime_laws::conv_run(o, inner, last, k).0->conv;
            let calls = toggle_calls(o, ToggleStep::Reading(inner), last, n);
            &&& calls.len() == asked.len() + 1
            &&& forall|i: int|
                0 <= i < asked.len() ==> #[trigger] calls[i] == ToggleCall::Ask(asked[i])
            &&& calls.last() == ToggleCall::Inject(
                crate::ime_toggle::ja_tap(crate::ime_toggle::ja_mode_of(conv as int)),
            )
        }),
    decreases k,
{
    let call = crate::ime_toggle::conv_call_of(inner).unwrap();
    let (next, known) = crate::ime_toggle::conv_next(inner, crate::probe::reply_of(o, call), last);
    let asked = conv_calls(o, inner, last, k);
    let calls = toggle_calls(o, ToggleStep::Reading(inner), last, n);
    assert(k > 0);
    if next is Done {
        reveal_with_fuel(toggle_calls, 4);
        reveal_with_fuel(conv_calls, 2);
        reveal_with_fuel(crate::ime_laws::conv_run, 2);
        assert(asked =~= seq![call]);
        assert(calls.len() == 2);
    } else {
        let rest = conv_calls(o, next, known, (k - 1) as nat);
        toggle_calls_through_reading(o, next, known, (k - 1) as nat, (n - 1) as nat);
        let later = toggle_calls(o, ToggleStep::Reading(next), known, (n - 1) as nat);
        assert(asked == seq![call] + rest);
        assert(calls == seq![ToggleCall::Ask(call)] + later);
        assert forall|i: int| 0 <= i < asked.len() implies #[trigger] calls[i] == ToggleCall::Ask(
            asked[i],
        ) by {
            if i > 0 {
                assert(calls[i] == later[i - 1]);
                assert(asked[i] == rest[i - 1]);
            }
        }
        assert(calls.last() == later.last());
    }
}

/// A switch asks for the foreground window first; under a Japanese layout it then makes the calls
/// of a whole reading; and the keys are injected after everything that was asked, as the last
/// thing. Without a foreground window it asks for no more and injects nothing.
pub proof fn law_calls_of_a_switch(o: Outside, last: u32, n: nat)
    requires
        n >= 11,
    ensures
        ({
            let calls = toggle_calls(o, ToggleStep::Foreground, last, n);
            let asked = conv_calls(o, ConvStep::Context(ContextStep::ThreadIds), last, 9);
            &&& calls[0] == ToggleCall::Ask(Call::Foreground)
            &&& o.layout is None ==> calls.len() == 1
            &&& o.layout matches Some(layout) ==> {
                &&& calls.last() is Inject
                &&& layout % 0x400 != 0x11 ==> calls.len() == 2
                &&& layout % 0x400 == 0x11 ==> calls.len() == asked.len() + 2 && forall|i: int|
                    1 <= i <= asked.len() ==> #[trigger] calls[i] == ToggleCall::Ask(asked[i - 1])
            }
        }),
{
    reveal_with_fuel(toggle_calls, 4);
    let calls = toggle_calls(o, ToggleStep::Foreground, last, n);
    if o.layout is Some && o.layout.unwrap() % 0x400 == 0x11 {
        let start = ConvStep::Context(ContextStep::ThreadIds);
        crate::ime_laws::law_conversion_mode_falls_back_to_the_last_known(o, last, 9);
        toggle_calls_through_reading(o, start, last, 9, (n - 1) as nat);
        let later = toggle_calls(o, ToggleStep::Reading(start), last, (n - 1) as nat);
        assert(calls == seq![ToggleCall::Ask(Call::Foreground)] + later);
        let asked = conv_calls(o, start, last, 9);
        assert forall|i: int| 1 <= i <= asked.len() implies #[trigger] calls[i] == ToggleCall::Ask(
            asked[i - 1],
        ) by {
            assert(calls[i] == later[i - 1]);
        }
    }
}

// ---- replies ----

/// A reply is of the kind that answers the call.
pub open spec fn answers(call: Call, reply: Reply) -> bool {
    match call {
        Call::Foreground => reply is Foreground,
        Call::ThreadIds => reply is ThreadIds,
        Call::Attach => reply is Flag,
        Call::GetContext => reply is Flag,
        Call::GetOpenStatus => reply is Flag,
        Call::GetConversionStatus => reply is Conversion,
        Call::ReleaseContext => reply is Returned,
        Call::Detach => reply is Returned,
        Call::FindImeWindow => reply is Flag,
        Call::Query(_) => reply is Answer,
    }
}

/// A reply that does not answer the pending call changes nothing, wherever a probe, a reading, a
/// switch or a detection stands, and the last known mode stays what it was.
pub proof fn law_unasked_replies_change_nothing(
    plan: ContextPlan,
    context: ContextStep,
    window: WindowStep,
    conv: ConvStep,
    state: StateStep,
    detect: DetectStep,
    language: LanguageStep,
    reply: Reply,
    last: u32,
)
    ensures
        crate::probe::context_call_of(context) matches Some(call) ==> !answers(call, reply)
            ==> crate::probe::context_next(plan, context, reply) == context,
        crate::probe::window_call_of(window) matches Some(call) ==> !answers(call, reply)
            ==> crate::probe::window_next(window, reply) == window,
        crate::ime_toggle::conv_call_of(conv) matches Some(call) ==> !answers(call, reply)
            ==> crate::ime_toggle::conv_next(conv, reply, last) == (conv, last),
        crate::ime_toggle::state_call_of(state) matches Some(call) ==> !answers(call, reply)
            ==> crate::ime_toggle::state_next(state, reply) == state,
        crate::ime_toggle::detect_call_of(detect) matches Some(call) ==> !answers(call, reply)
            ==> crate::ime_toggle::detect_next(detect, reply, last) == (detect, last),
        crate::overlay::language_call_of(language) matches Some(call) ==> !answers(call, reply)
            ==> crate::overlay::language_next(language, reply) == language,
{
}

/// The same of a switch, whose injected keys are answered by a plain return.
pub proof fn law_unasked_replies_do_not_switch(
    step: ToggleStep,
    tap: Tap,
    expected: Option<u32>,
    reply: Reply,
    last: u32,
)
    ensures
        crate::ime_toggle::toggle_call_of(step) matches Some(ToggleCall::Ask(call)) ==> !answers(
            call,
            reply,
        ) ==> crate::ime_toggle::toggle_next(step, reply, last) == (step, last),
        reply !is Returned ==> crate::ime_toggle::toggle_next(
            ToggleStep::Sending { tap, expected },
            reply,
            last,
        ) == (ToggleStep::Sending { tap, expected }, last),
        crate::ime_toggle::toggle_next(ToggleStep::Done, reply, last) == (ToggleStep::Done, last),
        crate::ime_toggle::toggle_next(ToggleStep::Ignored, reply, last) == (
            ToggleStep::Ignored,
            last,
        ),
{
}

/// The last known mode changes only when something was read or the keys of a switch were sent:
/// then it is what was read, or what is expected of the keys.
pub proof fn law_known_mode_changes_only_by_reading_or_switching(
    conv: ConvStep,
    toggle: ToggleStep,
    reply: Reply,
    last: u32,
)
    ensures
        ({
            let (next, known) = crate::ime_toggle::conv_next(conv, reply, last);
            known != last ==> next == (ConvStep::Done { conv: known })
        }),
        ({
            let (next, known) = crate::ime_toggle::toggle_next(toggle, reply, last);
            known != last ==> match toggle {
                ToggleStep::Reading(_) => next is Sending,
                ToggleStep::Sending { expected, .. } => reply is Returned && expected == Some(known)
                    && next == ToggleStep::Done,
                _ => false,
            }
        }),
{
}

/// Steps that are over stay as they are.
pub proof fn law_finished_steps_stay(
    plan: ContextPlan,
    context: ContextStep,
    window: WindowStep,
    conv: u32,
    state: crate::probe::ImeState,
    shown: Indicator,
    reply: Reply,
    last: u32,
)
    ensures
        context is Finished ==> crate::probe::context_next(plan, context, reply) == context,
        window is Finished ==> crate::probe::window_next(window, reply) == window,
        crate::ime_toggle::conv_next(ConvStep::Done { conv }, reply, last) == (
            ConvStep::Done { conv },
            last,
        ),
        crate::ime_toggle::state_next(StateStep::Done { state }, reply) == (StateStep::Done {
            state,
        }),
        crate::ime_toggle::detect_next(DetectStep::Done { shown }, reply, last) == (
            DetectStep::Done { shown },
            last,
        ),
        crate::overlay::language_next(LanguageStep::Done { shown }, reply) == (LanguageStep::Done {
            shown,
        }),
        crate::probe::context_call_of(context) is None <==> context is Finished,
        crate::probe::window_call_of(window) is None <==> window is Finished,
{
}

} // verus!
