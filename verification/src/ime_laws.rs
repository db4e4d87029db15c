//! What switching and detecting come to, from the first call to the last.

use vstd::prelude::*;

use crate::ime_toggle::{
    ConvStep, DetectStep, JaMode, PrimaryLang, StateStep, Tap, ToggleCall, ToggleStep, CONV_UNREAD,
};
use crate::overlay::Indicator;
use crate::probe::{ContextStep, ImeState, Outside, Reply};
use crate::win32::{VK_LCONTROL, VK_SPACE};

verus! {

// ---- the conversion mode ----

/// The input method window answers the question for its conversion mode.
pub open spec fn window_tells_mode(o: Outside) -> bool {
    o.has_window && o.mode_ok != 0
}

/// The conversion mode that is read: from the context, else from the window, else the last
/// known one.
pub open spec fn conv_read(o: Outside, last: u32) -> u32 {
    if crate::probe::context_reads(o) {
        o.mode
    } else if window_tells_mode(o) {
        crate::win32::low_dword_of(o.mode_value as int) as u32
    } else {
        last
    }
}

/// The step that the reading of the conversion mode reaches in at most `n` calls.
pub open spec fn conv_run(o: Outside, step: ConvStep, last: u32, n: nat) -> (ConvStep, u32)
    decreases n,
{
    match crate::ime_toggle::conv_call_of(step) {
        Some(call) if n > 0 => {
            let (next, known) = crate::ime_toggle::conv_next(
                step,
                crate::probe::reply_of(o, call),
                last,
            );
            conv_run(o, next, known, (n - 1) as nat)
        },
        _ => (step, last),
    }
}

proof fn conv_run_through_context(o: Outside, inner: ContextStep, last: u32, k: nat, n: nat)
    requires
        crate::probe::context_call_of(inner) is Some,
        crate::probe::context_run(crate::ime_toggle::conv_plan(), o, inner, k).1
            == (ContextStep::Finished {
            found: crate::probe::context_found(crate::ime_toggle::conv_plan(), o),
        }),
        n >= k + 2,
    ensures
        conv_run(o, ConvStep::Context(inner), last, n) == (
            ConvStep::Done { conv: conv_read(o, last) },
            conv_read(o, last),
        ),
    decreases k,
{
    reveal_with_fuel(crate::probe::context_run, 2);
    let plan = crate::ime_toggle::conv_plan();
    let call = crate::probe::context_call_of(inner).unwrap();
    let next = crate::probe::context_next(plan, inner, crate::probe::reply_of(o, call));
    if crate::probe::context_call_of(next) is Some {
        conv_run_through_context(o, next, last, (k - 1) as nat, (n - 1) as nat);
    } else {
        reveal_with_fuel(conv_run, 4);
    }
}

/// The conversion mode is read within nine calls: from the context of the foreground window,
/// else from its input method window, else it is the last known mode. Whatever is read becomes
/// the last known mode.
pub proof fn law_conversion_mode_falls_back_to_the_last_known(o: Outside, last: u32, n: nat)
    requires
        n >= 9,
    ensures
        conv_run(o, ConvStep::Context(ContextStep::ThreadIds), last, n) == (
            ConvStep::Done { conv: conv_read(o, last) },
            conv_read(o, last),
        ),
{
    crate::probe::law_context_probe_puts_everything_back(crate::ime_toggle::conv_plan(), o, 7);
    conv_run_through_context(o, ContextStep::ThreadIds, last, 7, n);
}

/// Neither channel tells the conversion mode.
pub open spec fn unreadable(o: Outside) -> bool {
    !crate::probe::context_reads(o) && !window_tells_mode(o)
}

/// The last known conversion mode after whole readings, one after another, each with its own
/// replies.
pub open spec fn known_after_reads(reads: Seq<Outside>, last: u32) -> u32
    decreases reads.len(),
{
    if reads.len() == 0 {
        last
    } else {
        conv_run(
            reads.last(),
            ConvStep::Context(ContextStep::ThreadIds),
            known_after_reads(reads.drop_last(), last),
            9,
        ).1
    }
}

/// However many readings fail in a row, each gives the mode that was last known before them, and
/// leaves it known.
pub proof fn law_failed_reads_keep_the_last_known(failed: Seq<Outside>, o: Outside, last: u32)
    requires
        forall|i: int| 0 <= i < failed.len() ==> unreadable(#[trigger] failed[i]),
        unreadable(o),
    ensures
        known_after_reads(failed, last) == last,
        known_after_reads(failed.push(o), last) == last,
        conv_run(
            o,
            ConvStep::Context(ContextStep::ThreadIds),
            known_after_reads(failed, last),
            9,
        ).0 == (ConvStep::Done { conv: last }),
    decreases failed.len(),
{
    if failed.len() > 0 {
        let front = failed.drop_last();
        assert(forall|i: int| 0 <= i < front.len() ==> front[i] == failed[i]);
        law_failed_reads_keep_the_last_known(front, failed.last(), last);
        assert(front.push(failed.last()) =~= failed);
    }
    assert(failed.push(o).drop_last() =~= failed);
    law_conversion_mode_falls_back_to_the_last_known(o, last, 9);
}

/// After a reading that succeeded, failed ones give what it read, whatever was known before it.
pub proof fn law_failed_reads_repeat_the_last_read(
    good: Outside,
    failed: Seq<Outside>,
    o: Outside,
    last: u32,
    other: u32,
)
    requires
        !unreadable(good),
        forall|i: int| 0 <= i < failed.len() ==> unreadable(#[trigger] failed[i]),
        unreadable(o),
    ensures
        ({
            let read = known_after_reads(seq![good], last);
            &&& read == conv_read(good, other)
            &&& conv_run(
                o,
                ConvStep::Context(ContextStep::ThreadIds),
                known_after_reads(failed, read),
                9,
            ).0 == (ConvStep::Done { conv: read })
        }),
{
    reveal_with_fuel(known_after_reads, 2);
    assert(seq![good].drop_last() =~= Seq::empty());
    law_conversion_mode_falls_back_to_the_last_known(good, last, 9);
    law_failed_reads_keep_the_last_known(failed, o, known_after_reads(seq![good], last));
}

/// From the start of the program, readings give zero for as long as all of them fail.
pub proof fn law_unread_mode_is_zero(failed: Seq<Outside>, o: Outside)
    requires
        forall|i: int| 0 <= i < failed.len() ==> unreadable(#[trigger] failed[i]),
        unreadable(o),
    ensures
        conv_run(
            o,
            ConvStep::Context(ContextStep::ThreadIds),
            known_after_reads(failed, CONV_UNREAD),
            9,
        ) == (ConvStep::Done { conv: 0 }, 0u32),
{
    law_failed_reads_keep_the_last_known(failed, o, CONV_UNREAD);
    law_conversion_mode_falls_back_to_the_last_known(o, CONV_UNREAD, 9);
}

// ---- switching ----

/// The foreground layout is Japanese.
pub open spec fn japanese(o: Outside) -> bool {
    o.layout is Some && crate::ime_toggle::primary_lang_of(o.layout.unwrap() as int)
        == PrimaryLang::Japanese
}

/// The step that a switch reaches in at most `n` calls, the taps it injected, and the last known
/// conversion mode.
pub open spec fn toggle_run(o: Outside, step: ToggleStep, last: u32, n: nat) -> (
    ToggleStep,
    Seq<Tap>,
    u32,
)
    decreases n,
{
    match crate::ime_toggle::toggle_call_of(step) {
        Some(ToggleCall::Ask(call)) if n > 0 => {
            let (next, known) = crate::ime_toggle::toggle_next(
                step,
                crate::probe::reply_of(o, call),
                last,
            );
            toggle_run(o, next, known, (n - 1) as nat)
        },
        Some(ToggleCall::Inject(tap)) if n > 0 => {
            let (next, known) = crate::ime_toggle::toggle_next(step, Reply::Returned, last);
            let rest = toggle_run(o, next, known, (n - 1) as nat);
            (rest.0, seq![tap] + rest.1, rest.2)
        },
        _ => (step, Seq::empty(), last),
    }
}

/// What a whole switch comes to.
pub open spec fn toggled(o: Outside, last: u32) -> (ToggleStep, Seq<Tap>, u32) {
    if o.layout is None {
        (ToggleStep::Ignored, Seq::empty(), last)
    } else if japanese(o) {
        let mode = crate::ime_toggle::ja_mode_of(conv_read(o, last) as int);
        (
            ToggleStep::Done,
            seq![crate::ime_toggle::ja_tap(mode)],
            crate::ime_toggle::ja_conv(crate::ime_toggle::ja_next(mode)),
        )
    } else {
        (
            ToggleStep::Done,
            seq![Tap::Keys { modifier: VK_LCONTROL, key: VK_SPACE }],
            last,
        )
    }
}

proof fn toggle_run_sends(o: Outside, tap: Tap, expected: Option<u32>, last: u32, n: nat)
    requires
        n >= 1,
    ensures
        toggle_run(o, ToggleStep::Sending { tap, expected }, last, n) == (
            ToggleStep::Done,
            seq![tap],
            match expected {
                Some(conv) => conv,
                None => last,
            },
        ),
{
    reveal_with_fuel(toggle_run, 3);
    assert(toggle_run(o, ToggleStep::Sending { tap, expected }, last, n).1 =~= seq![tap]);
}

proof fn toggle_run_through_reading(
    o: Outside,
    inner: ConvStep,
    last: u32,
    conv: u32,
    k: nat,
    n: nat,
)
    requires
        crate::ime_toggle::conv_call_of(inner) is Some,
        conv_run(o, inner, last, k) == (ConvStep::Done { conv }, conv),
        n >= k + 1,
    ensures
        toggle_run(o, ToggleStep::Reading(inner), last, n) == (
            ToggleStep::Done,
            seq![crate::ime_toggle::ja_tap(crate::ime_toggle::ja_mode_of(conv as int))],
            crate::ime_toggle::ja_conv(
                crate::ime_toggle::ja_next(crate::ime_toggle::ja_mode_of(conv as int)),
            ),
        ),
    decreases k,
{
    reveal_with_fuel(conv_run, 2);
    reveal_with_fuel(toggle_run, 2);
    let call = crate::ime_toggle::conv_call_of(inner).unwrap();
    let (next, known) = crate::ime_toggle::conv_next(
        inner,
        crate::probe::reply_of(o, call),
        last,
    );
    let mode = crate::ime_toggle::ja_mode_of(conv as int);
    match next {
        ConvStep::Done { conv: read } => {
            assert(read == conv);
            toggle_run_sends(
                o,
                crate::ime_toggle::ja_tap(mode),
                Some(crate::ime_toggle::ja_conv(crate::ime_toggle::ja_next(mode))),
                known,
                (n - 1) as nat,
            );
        },
        _ => {
            toggle_run_through_reading(o, next, known, conv, (k - 1) as nat, (n - 1) as nat);
        },
    }
}

/// A switch is over within eleven calls. Without a foreground window it does nothing. Under a
/// Japanese layout it injects the one tap that leads out of the mode it read, and expects the
/// next mode; under any other layout it injects Ctrl+Space and leaves the last known Japanese
/// mode alone.
pub proof fn law_switch_injects_one_tap(o: Outside, last: u32, n: nat)
    requires
        n >= 11,
    ensures
        toggle_run(o, ToggleStep::Foreground, last, n) == toggled(o, last),
{
    reveal_with_fuel(toggle_run, 2);
    if japanese(o) {
        law_conversion_mode_falls_back_to_the_last_known(o, last, 9);
        toggle_run_through_reading(
            o,
            ConvStep::Context(ContextStep::ThreadIds),
            last,
            conv_read(o, last),
            9,
            (n - 1) as nat,
        );
    } else if o.layout is Some {
        toggle_run_sends(
            o,
            Tap::Keys { modifier: VK_LCONTROL, key: VK_SPACE },
            None,
            last,
            (n - 1) as nat,
        );
    }
}

/// A switch leaves the last known conversion mode at the mode after the one that was read.
pub proof fn law_switch_advances_the_mode(o: Outside, last: u32)
    requires
        japanese(o),
    ensures
        crate::ime_toggle::ja_mode_of(toggled(o, last).2 as int) == crate::ime_toggle::ja_next(
            crate::ime_toggle::ja_mode_of(conv_read(o, last) as int),
        ),
{
}

/// Where the conversion mode can never be read, switches still go around: three of them come
/// back to the mode they started from, over the two others, whatever was last known and whichever
/// window was asked each time.
pub proof fn law_three_switches_go_around(o1: Outside, o2: Outside, o3: Outside, last: u32)
    requires
        japanese(o1) && unreadable(o1),
        japanese(o2) && unreadable(o2),
        japanese(o3) && unreadable(o3),
    ensures
        ({
            let start = crate::ime_toggle::ja_mode_of(last as int);
            let once = toggled(o1, last).2;
            let twice = toggled(o2, once).2;
            let thrice = toggled(o3, twice).2;
            &&& crate::ime_toggle::ja_mode_of(once as int) == crate::ime_toggle::ja_next(start)
            &&& crate::ime_toggle::ja_mode_of(twice as int) == crate::ime_toggle::ja_next(
                crate::ime_toggle::ja_next(start),
            )
            &&& crate::ime_toggle::ja_mode_of(thrice as int) == start
            &&& crate::ime_toggle::ja_next(start) != start
            &&& crate::ime_toggle::ja_next(crate::ime_toggle::ja_next(start)) != start
        }),
{
}

/// Before anything was read or switched, an input method that cannot be read counts as direct
/// input, and the first switch leads it to hiragana.
pub proof fn law_first_switch_leads_to_hiragana(o: Outside)
    requires
        japanese(o) && unreadable(o),
    ensures
        crate::ime_toggle::ja_mode_of(toggled(o, CONV_UNREAD).2 as int) == JaMode::Hiragana,
{
}

// ---- detecting ----

/// The input method window answers both questions.
pub open spec fn window_tells_state(o: Outside) -> bool {
    o.has_window && o.open_ok != 0 && o.mode_ok != 0
}

/// The state in the answers of the input method window.
pub open spec fn window_state(o: Outside) -> ImeState {
    ImeState {
        open: o.open_value != 0,
        native: crate::probe::native_bit(o.mode_value as int),
    }
}

/// The state that is read: from the context, else from the window, else open and not native.
pub open spec fn state_read(o: Outside) -> ImeState {
    if crate::probe::context_reads(o) {
        ImeState { open: o.open, native: crate::probe::native_bit(o.mode as int) }
    } else if window_tells_state(o) {
        window_state(o)
    } else {
        ImeState { open: true, native: false }
    }
}

/// The step that the reading of the state reaches in at most `n` calls.
pub open spec fn state_run(o: Outside, step: StateStep, n: nat) -> StateStep
    decreases n,
{
    match crate::ime_toggle::state_call_of(step) {
        Some(call) if n > 0 => state_run(
            o,
            crate::ime_toggle::state_next(step, crate::probe::reply_of(o, call)),
            (n - 1) as nat,
        ),
        _ => step,
    }
}

proof fn state_run_through_context(o: Outside, inner: ContextStep, k: nat, n: nat)
    requires
        crate::probe::context_call_of(inner) is Some,
        crate::probe::context_run(crate::ime_toggle::state_plan(), o, inner, k).1
            == (ContextStep::Finished {
            found: crate::probe::context_found(crate::ime_toggle::state_plan(), o),
        }),
        n >= k + 3,
    ensures
        state_run(o, StateStep::Context(inner), n) == (StateStep::Done { state: state_read(o) }),
    decreases k,
{
    reveal_with_fuel(crate::probe::context_run, 2);
    let plan = crate::ime_toggle::state_plan();
    let call = crate::probe::context_call_of(inner).unwrap();
    let next = crate::probe::context_next(plan, inner, crate::probe::reply_of(o, call));
    if crate::probe::context_call_of(next) is Some {
        state_run_through_context(o, next, (k - 1) as nat, (n - 1) as nat);
    } else {
        reveal_with_fuel(state_run, 5);
    }
}

/// The state is read within ten calls: from the context of the foreground window, else from its
/// input method window, else it counts as open and not native.
pub proof fn law_unreadable_state_counts_as_latin(o: Outside, n: nat)
    requires
        n >= 10,
    ensures
        state_run(o, StateStep::Context(ContextStep::ThreadIds), n) == (StateStep::Done {
            state: state_read(o),
        }),
{
    crate::probe::law_context_probe_puts_everything_back(crate::ime_toggle::state_plan(), o, 7);
    state_run_through_context(o, ContextStep::ThreadIds, 7, n);
}

/// The step that the detection reaches in at most `n` calls, and the last known conversion mode.
pub open spec fn detect_run(o: Outside, step: DetectStep, last: u32, n: nat) -> (DetectStep, u32)
    decreases n,
{
    match crate::ime_toggle::detect_call_of(step) {
        Some(call) if n > 0 => {
            let (next, known) = crate::ime_toggle::detect_next(
                step,
                crate::probe::reply_of(o, call),
                last,
            );
            detect_run(o, next, known, (n - 1) as nat)
        },
        _ => (step, last),
    }
}

/// What is to be shown.
pub open spec fn detected(o: Outside, last: u32) -> Indicator {
    match o.layout {
        None => Indicator::En,
        Some(handle) => match crate::ime_toggle::primary_lang_of(handle as int) {
            PrimaryLang::Chinese => crate::ime_toggle::zh_indicator(state_read(o)),
            PrimaryLang::Japanese => crate::ime_toggle::ja_indicator(
                crate::ime_toggle::ja_mode_of(conv_read(o, last) as int),
            ),
            PrimaryLang::Korean => crate::ime_toggle::ko_indicator(state_read(o)),
            PrimaryLang::Other => Indicator::En,
        },
    }
}

/// The last known conversion mode after a detection.
pub open spec fn known_after_detection(o: Outside, last: u32) -> u32 {
    if japanese(o) {
        conv_read(o, last)
    } else {
        last
    }
}

proof fn detect_run_japanese(o: Outside, inner: ConvStep, last: u32, conv: u32, k: nat, n: nat)
    requires
        crate::ime_toggle::conv_call_of(inner) is Some,
        conv_run(o, inner, last, k) == (ConvStep::Done { conv }, conv),
        n >= k,
    ensures
        detect_run(o, DetectStep::Japanese(inner), last, n) == (
            DetectStep::Done {
                shown: crate::ime_toggle::ja_indicator(crate::ime_toggle::ja_mode_of(conv as int)),
            },
            conv,
        ),
    decreases k,
{
    reveal_with_fuel(conv_run, 2);
    reveal_with_fuel(detect_run, 2);
    let call = crate::ime_toggle::conv_call_of(inner).unwrap();
    let (next, known) = crate::ime_toggle::conv_next(
        inner,
        crate::probe::reply_of(o, call),
        last,
    );
    if crate::ime_toggle::conv_call_of(next) is Some {
        detect_run_japanese(o, next, known, conv, (k - 1) as nat, (n - 1) as nat);
    }
}

proof fn detect_run_native(o: Outside, inner: StateStep, last: u32, state: ImeState, k: nat, n: nat)
    requires
        crate::ime_toggle::state_call_of(inner) is Some,
        state_run(o, inner, k) == (StateStep::Done { state }),
        n >= k,
    ensures
        detect_run(o, DetectStep::Chinese(inner), last, n) == (
            DetectStep::Done { shown: crate::ime_toggle::zh_indicator(state) },
            last,
        ),
        detect_run(o, DetectStep::Korean(inner), last, n) == (
            DetectStep::Done { shown: crate::ime_toggle::ko_indicator(state) },
            last,
        ),
    decreases k,
{
    reveal_with_fuel(state_run, 2);
    reveal_with_fuel(detect_run, 2);
    let call = crate::ime_toggle::state_call_of(inner).unwrap();
    let next = crate::ime_toggle::state_next(inner, crate::probe::reply_of(o, call));
    if crate::ime_toggle::state_call_of(next) is Some {
        detect_run_native(o, next, last, state, (k - 1) as nat, (n - 1) as nat);
    }
}

/// The detection is done within eleven calls, and shows what the layout and the state or
/// conversion mode that was read stand for.
pub proof fn law_detection_shows_what_was_read(o: Outside, last: u32, n: nat)
    requires
        n >= 11,
    ensures
        detect_run(o, DetectStep::Foreground, last, n) == (
            DetectStep::Done { shown: detected(o, last) },
            known_after_detection(o, last),
        ),
{
    reveal_with_fuel(detect_run, 2);
    if o.layout is Some {
        let handle = o.layout.unwrap();
        let m = (n - 1) as nat;
        match crate::ime_toggle::primary_lang_of(handle as int) {
            PrimaryLang::Japanese => {
                law_conversion_mode_falls_back_to_the_last_known(o, last, 9);
                detect_run_japanese(
                    o,
                    ConvStep::Context(ContextStep::ThreadIds),
                    last,
                    conv_read(o, last),
                    9,
                    m,
                );
            },
            PrimaryLang::Other => {},
            _ => {
                law_unreadable_state_counts_as_latin(o, 10);
                detect_run_native(
                    o,
                    StateStep::Context(ContextStep::ThreadIds),
                    last,
                    state_read(o),
                    10,
                    m,
                );
            },
        }
    }
}

/// Where the conversion mode cannot be read, a detection after a switch shows the mode that the
/// switch led to.
pub proof fn law_detection_follows_an_unreadable_switch(o1: Outside, o2: Outside, last: u32)
    requires
        japanese(o1),
        japanese(o2) && unreadable(o2),
    ensures
        detected(o2, toggled(o1, last).2) == crate::ime_toggle::ja_indicator(
            crate::ime_toggle::ja_next(
                crate::ime_toggle::ja_mode_of(conv_read(o1, last) as int),
            ),
        ),
{
}

/// A tap leaves no key held: read backwards, each press meets the release of the same key, and
/// every event bears the mark of an injected key.
pub proof fn law_tap_releases_what_it_presses(tap: Tap, i: int)
    requires
        0 <= i < crate::ime_toggle::tap_inputs(tap).len(),
    ensures
        ({
            let inputs = crate::ime_toggle::tap_inputs(tap);
            let mirror = inputs[inputs.len() - 1 - i];
            &&& inputs.len() % 2 == 0
            &&& inputs[i].vk == mirror.vk && inputs[i].scan == mirror.scan
            &&& crate::win32::has_bit(inputs[i].flags as int, 2) <==> 2 * i >= inputs.len()
            &&& inputs[i].extra_info == crate::ime_toggle::INJECTED_FLAG
        }),
{
}

} // verus!
