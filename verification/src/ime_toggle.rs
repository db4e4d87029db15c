//! Switching the input method, and telling which mode it is in.
//!
//! A Chinese or Korean input method, or a plain layout, is switched by an injected Ctrl+Space.
//! A Japanese one is led around its three modes. Both start with the foreground window, and both
//! are steps as in `probe`: the pending call, a reply, the next step.

use vstd::prelude::*;

use crate::overlay::Indicator;
use crate::probe::{
    context_call, step_context, step_window, window_call, Call, ContextPlan, ContextStatus,
    ContextStep, ImeState, Reply, WindowStep,
};
use crate::win32::{
    low_dword, IMC_GETCONVERSIONMODE, KEYEVENTF_KEYUP, KEYEVENTF_SCANCODE, VK_CAPITAL, VK_LCONTROL,
    VK_LMENU, VK_SPACE,
};

verus! {

/// How long an input method window may take to answer, in milliseconds.
pub const IME_QUERY_TIMEOUT_MS: u32 = 100;

/// The bit of a conversion mode that stands for native language input.
pub const IME_CMODE_NATIVE: u32 = 0x0001;

/// The bit that, beside the native one, stands for katakana.
pub const IME_CMODE_KATAKANA: u32 = 0x0002;

/// The usual conversion mode of hiragana: native, full shape.
pub const CONV_HIRAGANA: u32 = 0x0009;

/// The usual conversion mode of katakana: native, katakana, full shape.
pub const CONV_KATAKANA: u32 = 0x000B;

/// The conversion mode of direct input.
pub const CONV_ALPHA: u32 = 0x0000;

/// The last known conversion mode before anything was read or switched: direct input.
pub const CONV_UNREAD: u32 = CONV_ALPHA;

/// The scan code of the half-width/full-width key.
pub const SCAN_HANKAKU: u32 = 0x0029;

/// The mark on every injected key, by which the keyboard hook lets it pass.
pub const INJECTED_FLAG: usize = 0x1;

// ---- the language of a layout ----

/// The primary language of a keyboard layout, as far as it makes a difference.
#[derive(Clone, Copy, PartialEq, Eq, Debug, Structural)]
pub enum PrimaryLang {
    Chinese,
    Japanese,
    Korean,
    Other,
}

/// The primary language of a layout handle: the low ten bits of its low word.
pub open spec fn primary_lang_of(layout: int) -> PrimaryLang {
    let id = layout % 0x400;
    if id == 0x04 {
        PrimaryLang::Chinese
    } else if id == 0x11 {
        PrimaryLang::Japanese
    } else if id == 0x12 {
        PrimaryLang::Korean
    } else {
        PrimaryLang::Other
    }
}

/// Reads the primary language off a layout handle.
pub fn primary_lang(layout: usize) -> (lang: PrimaryLang)
    ensures
        lang == primary_lang_of(layout as int),
{
    let id: usize = (layout & 0xFFFF) & 0x3FF;
    assert(((layout & 0xFFFF) & 0x3FF) == layout % 0x400) by (bit_vector);
    if id == 0x04 {
        PrimaryLang::Chinese
    } else if id == 0x11 {
        PrimaryLang::Japanese
    } else if id == 0x12 {
        PrimaryLang::Korean
    } else {
        PrimaryLang::Other
    }
}

// ---- the modes of a Japanese input method ----

/// The input modes of a Japanese input method.
#[derive(Clone, Copy, PartialEq, Eq, Debug, Structural)]
pub enum JaMode {
    /// Direct input, in Latin letters.
    Alpha,
    Hiragana,
    Katakana,
}

/// The input mode that a conversion mode stands for.
pub open spec fn ja_mode_of(conv: int) -> JaMode {
    if !crate::probe::native_bit(conv) {
        JaMode::Alpha
    } else if crate::win32::has_bit(conv, 2) {
        JaMode::Katakana
    } else {
        JaMode::Hiragana
    }
}

/// Reads the input mode off a conversion mode.
pub fn ja_mode_from_conv(conv: u32) -> (mode: JaMode)
    ensures
        mode == ja_mode_of(conv as int),
{
    assert((conv & 0x0001 == 0) == (conv % 2 == 0)) by (bit_vector);
    assert((conv & 0x0002 != 0) == ((conv / 2) % 2 == 1)) by (bit_vector);
    if conv & IME_CMODE_NATIVE == 0 {
        JaMode::Alpha
    } else if conv & IME_CMODE_KATAKANA != 0 {
        JaMode::Katakana
    } else {
        JaMode::Hiragana
    }
}

/// The mode that a switch leads to.
pub open spec fn ja_next(mode: JaMode) -> JaMode {
    match mode {
        JaMode::Alpha => JaMode::Hiragana,
        JaMode::Hiragana => JaMode::Katakana,
        JaMode::Katakana => JaMode::Alpha,
    }
}

/// The usual conversion mode of an input mode.
pub open spec fn ja_conv(mode: JaMode) -> u32 {
    match mode {
        JaMode::Alpha => CONV_ALPHA,
        JaMode::Hiragana => CONV_HIRAGANA,
        JaMode::Katakana => CONV_KATAKANA,
    }
}

// ---- injected keys ----

/// A key event to inject.
#[derive(Clone, Copy, PartialEq, Eq, Debug, Structural)]
pub struct KeyInput {
    pub vk: u16,
    pub scan: u16,
    pub flags: u32,
    pub time: u32,
    pub extra_info: usize,
}

/// A key combination to press and release. A modifier, or held key, of zero stands for
/// none.
#[derive(Clone, Copy, PartialEq, Eq, Debug, Structural)]
pub enum Tap {
    /// By virtual keys.
    Keys { modifier: u16, key: u16 },
    /// By scan codes.
    Scans { scan: u32, held: u32 },
}

/// The event of a virtual key.
pub open spec fn key_input(vk: u16, up: bool) -> KeyInput {
    KeyInput {
        vk,
        scan: 0,
        flags: if up {
            KEYEVENTF_KEYUP
        } else {
            0
        },
        time: 0,
        extra_info: INJECTED_FLAG,
    }
}

/// The event of a scan code, of which the low word counts.
pub open spec fn scan_input(scan: u32, up: bool) -> KeyInput {
    KeyInput {
        vk: 0,
        scan: (scan % 0x1_0000) as u16,
        flags: if up {
            (KEYEVENTF_KEYUP + KEYEVENTF_SCANCODE) as u32
        } else {
            KEYEVENTF_SCANCODE
        },
        time: 0,
        extra_info: INJECTED_FLAG,
    }
}

/// The events of a tap, the modifier held around the key.
pub open spec fn tap_inputs(tap: Tap) -> Seq<KeyInput> {
    match tap {
        Tap::Keys { modifier, key } => if modifier == 0 {
            seq![key_input(key, false), key_input(key, true)]
        } else {
            seq![
                key_input(modifier, false),
                key_input(key, false),
                key_input(key, true),
                key_input(modifier, true),
            ]
        },
        Tap::Scans { scan, held } => if held == 0 {
            seq![scan_input(scan, false), scan_input(scan, true)]
        } else {
            seq![
                scan_input(held, false),
                scan_input(scan, false),
                scan_input(scan, true),
                scan_input(held, true),
            ]
        },
    }
}

fn make_key_input(vk: u16, up: bool) -> (input: KeyInput)
    ensures
        input == key_input(vk, up),
{
    KeyInput {
        vk,
        scan: 0,
        flags: if up {
            KEYEVENTF_KEYUP
        } else {
            0
        },
        time: 0,
        extra_info: INJECTED_FLAG,
    }
}

fn make_scan_input(scan: u32, up: bool) -> (input: KeyInput)
    ensures
        input == scan_input(scan, up),
{
    assert(scan & 0xFFFF == scan % 0x1_0000) by (bit_vector);
    assert(0x2u32 | 0x8u32 == 0xAu32) by (bit_vector);
    KeyInput {
        vk: 0,
        scan: (scan & 0xFFFF) as u16,
        flags: if up {
            KEYEVENTF_KEYUP | KEYEVENTF_SCANCODE
        } else {
            KEYEVENTF_SCANCODE
        },
        time: 0,
        extra_info: INJECTED_FLAG,
    }
}

/// The events of a tap of virtual keys; `modifier` zero is a single key.
pub fn send_key_tap(modifier: u16, key: u16) -> (inputs: Vec<KeyInput>)
    ensures
        inputs@ == tap_inputs(Tap::Keys { modifier, key }),
{
    let mut inputs: Vec<KeyInput> = Vec::new();
    if modifier != 0 {
        inputs.push(make_key_input(modifier, false));
    }
    inputs.push(make_key_input(key, false));
    inputs.push(make_key_input(key, true));
    if modifier != 0 {
        inputs.push(make_key_input(modifier, true));
    }
    inputs
}

/// The events of a tap of scan codes; `held` zero is a single key.
pub fn send_scan_tap(scan: u32, held: u32) -> (inputs: Vec<KeyInput>)
    ensures
        inputs@ == tap_inputs(Tap::Scans { scan, held }),
{
    let mut inputs: Vec<KeyInput> = Vec::new();
    if held != 0 {
        inputs.push(make_scan_input(held, false));
    }
    inputs.push(make_scan_input(scan, false));
    inputs.push(make_scan_input(scan, true));
    if held != 0 {
        inputs.push(make_scan_input(held, true));
    }
    inputs
}

/// The events to inject for a tap.
pub fn tap_events(tap: Tap) -> (inputs: Vec<KeyInput>)
    ensures
        inputs@ == tap_inputs(tap),
{
    match tap {
        Tap::Keys { modifier, key } => send_key_tap(modifier, key),
        Tap::Scans { scan, held } => send_scan_tap(scan, held),
    }
}

// ---- reading the conversion mode ----

/// The answer of an input method window: none where the message call returned zero, which it
/// does on failure and when the time is up.
pub fn query(ok: isize, value: usize) -> (answer: Option<usize>)
    ensures
        answer == if ok == 0 {
            None
        } else {
            Some(value)
        },
{
    if ok == 0 {
        None
    } else {
        Some(value)
    }
}

/// The calls on the input context when only the conversion mode is wanted.
pub open spec fn conv_plan() -> ContextPlan {
    ContextPlan { read_open: false, release: true }
}

/// The calls on the input context when the open status is wanted too.
pub open spec fn state_plan() -> ContextPlan {
    ContextPlan { read_open: true, release: true }
}

/// Where the reading of the conversion mode stands.
#[derive(Clone, Copy, PartialEq, Eq, Debug, Structural)]
pub enum ConvStep {
    Context(ContextStep),
    FindWindow,
    Query,
    Done { conv: u32 },
}

/// The call that the reading waits for.
pub open spec fn conv_call_of(step: ConvStep) -> Option<Call> {
    match step {
        ConvStep::Context(inner) => crate::probe::context_call_of(inner),
        ConvStep::FindWindow => Some(Call::FindImeWindow),
        ConvStep::Query => Some(Call::Query(IMC_GETCONVERSIONMODE)),
        ConvStep::Done { .. } => None,
    }
}

/// The step after a reply, and the last known conversion mode after it. A mode that was read
/// becomes the last known one; where both channels fail, the last known one stands in.
pub open spec fn conv_next(step: ConvStep, reply: Reply, last: u32) -> (ConvStep, u32) {
    match (step, reply) {
        (ConvStep::Context(inner), _) => {
            match crate::probe::context_next(conv_plan(), inner, reply) {
                ContextStep::Finished { found } => match found {
                    Some(status) if status.got => (
                        ConvStep::Done { conv: status.mode },
                        status.mode,
                    ),
                    _ => (ConvStep::FindWindow, last),
                },
                next => (ConvStep::Context(next), last),
            }
        },
        (ConvStep::FindWindow, Reply::Flag(found)) => if found {
            (ConvStep::Query, last)
        } else {
            (ConvStep::Done { conv: last }, last)
        },
        (ConvStep::Query, Reply::Answer { ok, value }) => if ok == 0 {
            (ConvStep::Done { conv: last }, last)
        } else {
            let conv = crate::win32::low_dword_of(value as int) as u32;
            (ConvStep::Done { conv }, conv)
        },
        _ => (step, last),
    }
}

/// The call that the reading of the conversion mode waits for; `None` once it is done.
pub fn conv_call(step: ConvStep) -> (call: Option<Call>)
    ensures
        call == conv_call_of(step),
{
    match step {
        ConvStep::Context(inner) => context_call(inner),
        ConvStep::FindWindow => Some(Call::FindImeWindow),
        ConvStep::Query => Some(Call::Query(IMC_GETCONVERSIONMODE)),
        ConvStep::Done { .. } => None,
    }
}

/// The conversion mode in the answer of an input method window, cut to 32 bits.
pub fn probe_ime_wnd_conv(ok: isize, value: usize) -> (conv: Option<u32>)
    ensures
        conv == if ok == 0 {
            None
        } else {
            Some(crate::win32::low_dword_of(value as int) as u32)
        },
{
    match query(ok, value) {
        Some(answer) => Some(low_dword(answer)),
        None => None,
    }
}

/// Takes the reading of the conversion mode over one reply. `last` is the last known mode: read,
/// or expected after a switch.
pub fn current_conv_mode(step: ConvStep, reply: Reply, last: &mut u32) -> (next: ConvStep)
    ensures
        (next, *final(last)) == conv_next(step, reply, *old(last)),
{
    let known: u32 = *last;
    let (next, now_known) = match (step, reply) {
        (ConvStep::Context(inner), _) => {
            let plan = ContextPlan { read_open: false, release: true };
            match step_context(plan, inner, reply) {
                ContextStep::Finished { found } => match found {
                    Some(status) if status.got => (
                        ConvStep::Done { conv: status.mode },
                        status.mode,
                    ),
                    _ => (ConvStep::FindWindow, known),
                },
                next => (ConvStep::Context(next), known),
            }
        },
        (ConvStep::FindWindow, Reply::Flag(found)) => {
            if found {
                (ConvStep::Query, known)
            } else {
                (ConvStep::Done { conv: known }, known)
            }
        },
        (ConvStep::Query, Reply::Answer { ok, value }) => {
            match probe_ime_wnd_conv(ok, value) {
                Some(conv) => (ConvStep::Done { conv }, conv),
                None => (ConvStep::Done { conv: known }, known),
            }
        },
        _ => (step, known),
    };
    *last = now_known;
    next
}

// ---- switching ----

/// The keys that lead a Japanese input method out of a mode, to the next one.
pub open spec fn ja_tap(mode: JaMode) -> Tap {
    match mode {
        JaMode::Alpha => Tap::Keys { modifier: VK_LCONTROL, key: VK_CAPITAL },
        JaMode::Hiragana => Tap::Keys { modifier: VK_LMENU, key: VK_CAPITAL },
        JaMode::Katakana => Tap::Scans { scan: SCAN_HANKAKU, held: 0 },
    }
}

/// The keys of a switch in a Japanese input method, and the conversion mode expected after them.
pub fn toggle_japanese(conv: u32) -> (switch: (Tap, u32))
    ensures
        switch.0 == ja_tap(ja_mode_of(conv as int)),
        switch.1 == ja_conv(ja_next(ja_mode_of(conv as int))),
{
    match ja_mode_from_conv(conv) {
        JaMode::Alpha => (Tap::Keys { modifier: VK_LCONTROL, key: VK_CAPITAL }, CONV_HIRAGANA),
        JaMode::Hiragana => (Tap::Keys { modifier: VK_LMENU, key: VK_CAPITAL }, CONV_KATAKANA),
        JaMode::Katakana => (Tap::Scans { scan: SCAN_HANKAKU, held: 0 }, CONV_ALPHA),
    }
}

/// Where a switch stands.
#[derive(Clone, Copy, PartialEq, Eq, Debug, Structural)]
pub enum ToggleStep {
    Foreground,
    /// A Japanese input method: its mode is being read.
    Reading(ConvStep),
    /// The keys are to be injected; then the last known conversion mode is the expected one.
    Sending { tap: Tap, expected: Option<u32> },
    Done,
    /// There is no foreground window, and nothing was switched.
    Ignored,
}

/// What a switch waits for.
#[derive(Clone, Copy, PartialEq, Eq, Debug, Structural)]
pub enum ToggleCall {
    Ask(Call),
    Inject(Tap),
}

/// What a switch waits for.
pub open spec fn toggle_call_of(step: ToggleStep) -> Option<ToggleCall> {
    match step {
        ToggleStep::Foreground => Some(ToggleCall::Ask(Call::Foreground)),
        ToggleStep::Reading(inner) => match conv_call_of(inner) {
            Some(call) => Some(ToggleCall::Ask(call)),
            None => None,
        },
        ToggleStep::Sending { tap, .. } => Some(ToggleCall::Inject(tap)),
        ToggleStep::Done => None,
        ToggleStep::Ignored => None,
    }
}

/// The step after a reply, and the last known conversion mode after it.
pub open spec fn toggle_next(step: ToggleStep, reply: Reply, last: u32) -> (ToggleStep, u32) {
    match (step, reply) {
        (ToggleStep::Foreground, Reply::Foreground(layout)) => match layout {
            None => (ToggleStep::Ignored, last),
            Some(handle) => if primary_lang_of(handle as int) == PrimaryLang::Japanese {
                (ToggleStep::Reading(ConvStep::Context(ContextStep::ThreadIds)), last)
            } else {
                (
                    ToggleStep::Sending {
                        tap: Tap::Keys { modifier: VK_LCONTROL, key: VK_SPACE },
                        expected: None,
                    },
                    last,
                )
            },
        },
        (ToggleStep::Reading(inner), _) => {
            let (next, known) = conv_next(inner, reply, last);
            match next {
                ConvStep::Done { conv } => {
                    let mode = ja_mode_of(conv as int);
                    (
                        ToggleStep::Sending {
                            tap: ja_tap(mode),
                            expected: Some(ja_conv(ja_next(mode))),
                        },
                        known,
                    )
                },
                _ => (ToggleStep::Reading(next), known),
            }
        },
        (ToggleStep::Sending { expected, .. }, Reply::Returned) => match expected {
            Some(conv) => (ToggleStep::Done, conv),
            None => (ToggleStep::Done, last),
        },
        _ => (step, last),
    }
}

/// What a switch waits for; `None` once it is over.
pub fn toggle_call(step: ToggleStep) -> (call: Option<ToggleCall>)
    ensures
        call == toggle_call_of(step),
{
    match step {
        ToggleStep::Foreground => Some(ToggleCall::Ask(Call::Foreground)),
        ToggleStep::Reading(inner) => match conv_call(inner) {
            Some(call) => Some(ToggleCall::Ask(call)),
            None => None,
        },
        ToggleStep::Sending { tap, .. } => Some(ToggleCall::Inject(tap)),
        ToggleStep::Done => None,
        ToggleStep::Ignored => None,
    }
}

/// Takes a switch over one reply: by the language of the foreground layout, either around the
/// three Japanese modes or by Ctrl+Space. `last` is the last known Japanese conversion mode.
pub fn toggle_or_fallback(step: ToggleStep, reply: Reply, last: &mut u32) -> (next: ToggleStep)
    ensures
        (next, *final(last)) == toggle_next(step, reply, *old(last)),
{
    let mut known: u32 = *last;
    let next = match (step, reply) {
        (ToggleStep::Foreground, Reply::Foreground(layout)) => match layout {
            None => ToggleStep::Ignored,
            Some(handle) => {
                if primary_lang(handle) == PrimaryLang::Japanese {
                    ToggleStep::Reading(ConvStep::Context(ContextStep::ThreadIds))
                } else {
                    ToggleStep::Sending {
                        tap: Tap::Keys { modifier: VK_LCONTROL, key: VK_SPACE },
                        expected: None,
                    }
                }
            },
        },
        (ToggleStep::Reading(inner), _) => {
            let next = current_conv_mode(inner, reply, &mut known);
            match next {
                ConvStep::Done { conv } => {
                    let (tap, expected) = toggle_japanese(conv);
                    ToggleStep::Sending { tap, expected: Some(expected) }
                },
                _ => ToggleStep::Reading(next),
            }
        },
        (ToggleStep::Sending { expected, .. }, Reply::Returned) => {
            match expected {
                Some(conv) => {
                    known = conv;
                },
                None => {},
            }
            ToggleStep::Done
        },
        _ => step,
    };
    *last = known;
    next
}

// ---- telling the state ----

/// What the input context says of the state; nothing where its conversion mode was not read.
pub open spec fn context_state(found: Option<ContextStatus>) -> Option<ImeState> {
    match found {
        Some(status) if status.got => Some(
            ImeState {
                open: status.open,
                native: crate::probe::native_bit(status.mode as int),
            },
        ),
        _ => None,
    }
}

/// Reads the state off what the input context said.
pub fn probe_context_read(found: Option<ContextStatus>) -> (state: Option<ImeState>)
    ensures
        state == context_state(found),
{
    match found {
        Some(status) if status.got => {
            let mode: u32 = status.mode;
            assert((mode & 0x0001 != 0) == (mode % 2 == 1)) by (bit_vector);
            Some(ImeState { open: status.open, native: mode & IME_CMODE_NATIVE != 0 })
        },
        _ => None,
    }
}

/// Where the reading of the state stands.
#[derive(Clone, Copy, PartialEq, Eq, Debug, Structural)]
pub enum StateStep {
    Context(ContextStep),
    Window(WindowStep),
    Done { state: ImeState },
}

/// The call that the reading of the state waits for.
pub open spec fn state_call_of(step: StateStep) -> Option<Call> {
    match step {
        StateStep::Context(inner) => crate::probe::context_call_of(inner),
        StateStep::Window(inner) => crate::probe::window_call_of(inner),
        StateStep::Done { .. } => None,
    }
}

/// The step after a reply. Where both channels fail, the input method counts as open and not
/// native.
pub open spec fn state_next(step: StateStep, reply: Reply) -> StateStep {
    match step {
        StateStep::Context(inner) => match crate::probe::context_next(
            state_plan(),
            inner,
            reply,
        ) {
            ContextStep::Finished { found } => match context_state(found) {
                Some(state) => StateStep::Done { state },
                None => StateStep::Window(WindowStep::Find),
            },
            next => StateStep::Context(next),
        },
        StateStep::Window(inner) => match crate::probe::window_next(inner, reply) {
            WindowStep::Finished { found } => match found {
                Some(state) => StateStep::Done { state },
                None => StateStep::Done { state: ImeState { open: true, native: false } },
            },
            next => StateStep::Window(next),
        },
        StateStep::Done { .. } => step,
    }
}

/// The call that the reading of the state waits for; `None` once it is done.
pub fn state_call(step: StateStep) -> (call: Option<Call>)
    ensures
        call == state_call_of(step),
{
    match step {
        StateStep::Context(inner) => context_call(inner),
        StateStep::Window(inner) => window_call(inner),
        StateStep::Done { .. } => None,
    }
}

/// Takes the reading of the state over one reply.
pub fn probe_state(step: StateStep, reply: Reply) -> (next: StateStep)
    ensures
        next == state_next(step, reply),
{
    match step {
        StateStep::Context(inner) => {
            let plan = ContextPlan { read_open: true, release: true };
            match step_context(plan, inner, reply) {
                ContextStep::Finished { found } => match probe_context_read(found) {
                    Some(state) => StateStep::Done { state },
                    None => StateStep::Window(WindowStep::Find),
                },
                next => StateStep::Context(next),
            }
        },
        StateStep::Window(inner) => match step_window(inner, reply) {
            WindowStep::Finished { found } => match found {
                Some(state) => StateStep::Done { state },
                None => StateStep::Done { state: ImeState { open: true, native: false } },
            },
            next => StateStep::Window(next),
        },
        StateStep::Done { .. } => step,
    }
}

/// Where the detection of what to show stands.
#[derive(Clone, Copy, PartialEq, Eq, Debug, Structural)]
pub enum DetectStep {
    Foreground,
    Japanese(ConvStep),
    Chinese(StateStep),
    Korean(StateStep),
    Done { shown: Indicator },
}

/// What is shown for a Japanese mode.
pub open spec fn ja_indicator(mode: JaMode) -> Indicator {
    match mode {
        JaMode::Alpha => Indicator::En,
        JaMode::Hiragana => Indicator::JaHiragana,
        JaMode::Katakana => Indicator::JaKatakana,
    }
}

/// What is shown for a Chinese input method: it must be open and native.
pub open spec fn zh_indicator(state: ImeState) -> Indicator {
    if state.open && state.native {
        Indicator::Zh
    } else {
        Indicator::En
    }
}

/// What is shown for a Korean input method: the native bit alone decides.
pub open spec fn ko_indicator(state: ImeState) -> Indicator {
    if state.native {
        Indicator::Ko
    } else {
        Indicator::En
    }
}

/// The call that the detection waits for.
pub open spec fn detect_call_of(step: DetectStep) -> Option<Call> {
    match step {
        DetectStep::Foreground => Some(Call::Foreground),
        DetectStep::Japanese(inner) => conv_call_of(inner),
        DetectStep::Chinese(inner) => state_call_of(inner),
        DetectStep::Korean(inner) => state_call_of(inner),
        DetectStep::Done { .. } => None,
    }
}

/// The first step for the layout of the foreground thread.
pub open spec fn detect_first(layout: Option<usize>) -> DetectStep {
    match layout {
        None => DetectStep::Done { shown: Indicator::En },
        Some(handle) => match primary_lang_of(handle as int) {
            PrimaryLang::Chinese => DetectStep::Chinese(
                StateStep::Context(ContextStep::ThreadIds),
            ),
            PrimaryLang::Japanese => DetectStep::Japanese(
                ConvStep::Context(ContextStep::ThreadIds),
            ),
            PrimaryLang::Korean => DetectStep::Korean(StateStep::Context(ContextStep::ThreadIds)),
            PrimaryLang::Other => DetectStep::Done { shown: Indicator::En },
        },
    }
}

/// The step after a reply, and the last known Japanese conversion mode after it.
pub open spec fn detect_next(step: DetectStep, reply: Reply, last: u32) -> (DetectStep, u32) {
    match (step, reply) {
        (DetectStep::Foreground, Reply::Foreground(layout)) => (detect_first(layout), last),
        (DetectStep::Japanese(inner), _) => {
            let (next, known) = conv_next(inner, reply, last);
            match next {
                ConvStep::Done { conv } => (
                    DetectStep::Done { shown: ja_indicator(ja_mode_of(conv as int)) },
                    known,
                ),
                _ => (DetectStep::Japanese(next), known),
            }
        },
        (DetectStep::Chinese(inner), _) => match state_next(inner, reply) {
            StateStep::Done { state } => (DetectStep::Done { shown: zh_indicator(state) }, last),
            next => (DetectStep::Chinese(next), last),
        },
        (DetectStep::Korean(inner), _) => match state_next(inner, reply) {
            StateStep::Done { state } => (DetectStep::Done { shown: ko_indicator(state) }, last),
            next => (DetectStep::Korean(next), last),
        },
        _ => (step, last),
    }
}

/// The call that the detection waits for; `None` once it is done.
pub fn detect_call(step: DetectStep) -> (call: Option<Call>)
    ensures
        call == detect_call_of(step),
{
    match step {
        DetectStep::Foreground => Some(Call::Foreground),
        DetectStep::Japanese(inner) => conv_call(inner),
        DetectStep::Chinese(inner) => state_call(inner),
        DetectStep::Korean(inner) => state_call(inner),
        DetectStep::Done { .. } => None,
    }
}

fn start_detection(layout: Option<usize>) -> (step: DetectStep)
    ensures
        step == detect_first(layout),
{
    match layout {
        None => DetectStep::Done { shown: Indicator::En },
        Some(handle) => match primary_lang(handle) {
            PrimaryLang::Chinese => {
                DetectStep::Chinese(StateStep::Context(ContextStep::ThreadIds))
            },
            PrimaryLang::Japanese => {
                DetectStep::Japanese(ConvStep::Context(ContextStep::ThreadIds))
            },
            PrimaryLang::Korean => DetectStep::Korean(StateStep::Context(ContextStep::ThreadIds)),
            PrimaryLang::Other => DetectStep::Done { shown: Indicator::En },
        },
    }
}

/// Takes the detection of what the overlay is to show over one reply. `last` is the last known
/// Japanese conversion mode.
pub fn detect_current_display(step: DetectStep, reply: Reply, last: &mut u32) -> (next: DetectStep)
    ensures
        (next, *final(last)) == detect_next(step, reply, *old(last)),
{
    let mut known: u32 = *last;
    let next = match (step, reply) {
        (DetectStep::Foreground, Reply::Foreground(layout)) => start_detection(layout),
        (DetectStep::Japanese(inner), _) => {
            let next = current_conv_mode(inner, reply, &mut known);
            match next {
                ConvStep::Done { conv } => {
                    let shown = match ja_mode_from_conv(conv) {
                        JaMode::Alpha => Indicator::En,
                        JaMode::Hiragana => Indicator::JaHiragana,
                        JaMode::Katakana => Indicator::JaKatakana,
                    };
                    DetectStep::Done { shown }
                },
                _ => DetectStep::Japanese(next),
            }
        },
        (DetectStep::Chinese(inner), _) => match probe_state(inner, reply) {
            StateStep::Done { state } => {
                let shown = if state.open && state.native {
                    Indicator::Zh
                } else {
                    Indicator::En
                };
                DetectStep::Done { shown }
            },
            next => DetectStep::Chinese(next),
        },
        (DetectStep::Korean(inner), _) => match probe_state(inner, reply) {
            StateStep::Done { state } => {
                let shown = if state.native {
                    Indicator::Ko
                } else {
                    Indicator::En
                };
                DetectStep::Done { shown }
            },
            next => DetectStep::Korean(next),
        },
        _ => step,
    };
    *last = known;
    next
}

// ---- what holds of every layout, mode and tap ----

/// Of a layout handle the low ten bits alone tell the language; three of their values are of a
/// language that makes a difference.
pub proof fn law_low_ten_bits_tell_the_language(layout: int, high: int)
    ensures
        primary_lang_of(layout) == PrimaryLang::Chinese <==> layout % 0x400 == 0x04,
        primary_lang_of(layout) == PrimaryLang::Japanese <==> layout % 0x400 == 0x11,
        primary_lang_of(layout) == PrimaryLang::Korean <==> layout % 0x400 == 0x12,
        primary_lang_of(layout + 0x400 * high) == primary_lang_of(layout),
{
}

/// Of a conversion mode two bits tell the input mode: without the lowest it is direct input, and
/// with it the next one tells katakana from hiragana. No other bit counts.
pub proof fn law_two_bits_tell_the_mode(conv: int, high: int)
    ensures
        ja_mode_of(conv) == JaMode::Alpha <==> conv % 2 == 0,
        ja_mode_of(conv) == JaMode::Hiragana <==> conv % 4 == 1,
        ja_mode_of(conv) == JaMode::Katakana <==> conv % 4 == 3,
        ja_mode_of(conv + 4 * high) == ja_mode_of(conv),
{
}

/// The modes are gone around: direct input leads to hiragana, that to katakana, and that back; no
/// two modes lead to the same one; and the usual conversion mode of a mode stands for it.
pub proof fn law_modes_go_around(mode: JaMode, other: JaMode)
    ensures
        ja_next(mode) == JaMode::Hiragana <==> mode == JaMode::Alpha,
        ja_next(mode) == JaMode::Katakana <==> mode == JaMode::Hiragana,
        ja_next(mode) == JaMode::Alpha <==> mode == JaMode::Katakana,
        ja_next(ja_next(ja_next(mode))) == mode,
        ja_next(mode) == ja_next(other) ==> mode == other,
        ja_mode_of(ja_conv(mode) as int) == mode,
        ja_conv(mode) == 0 <==> mode == JaMode::Alpha,
        mode != JaMode::Alpha ==> ja_conv(mode) / 8 == 1,
{
}

/// A tap of virtual keys with a modifier is four events, which name the modifier, the key, the key
/// and the modifier; without one it is two, which both name the key. The first half are presses,
/// the second half releases, and none bears a scan code.
pub proof fn law_modifier_is_held_around_the_key(modifier: u16, key: u16, i: int)
    ensures
        ({
            let inputs = tap_inputs(Tap::Keys { modifier, key });
            &&& modifier != 0 ==> {
                &&& inputs.len() == 4
                &&& inputs[0].vk == modifier
                &&& inputs[1].vk == key
                &&& inputs[2].vk == key
                &&& inputs[3].vk == modifier
            }
            &&& modifier == 0 ==> {
                &&& inputs.len() == 2
                &&& inputs[0].vk == key
                &&& inputs[1].vk == key
            }
            &&& 0 <= i < inputs.len() ==> {
                &&& inputs[i].flags == if 2 * i < inputs.len() {
                    0
                } else {
                    0x2int
                }
                &&& inputs[i].scan == 0
                &&& inputs[i].time == 0
                &&& inputs[i].extra_info == 1
            }
        }),
{
}

/// A tap of scan codes with a held key is four events around the key, without one it is two. Each
/// bears the low word of its scan code, no virtual key, and the mark of a scan code; the first
/// half are presses, the second half releases.
pub proof fn law_held_scan_surrounds_the_key(scan: u32, held: u32, i: int)
    ensures
        ({
            let inputs = tap_inputs(Tap::Scans { scan, held });
            &&& held != 0 ==> {
                &&& inputs.len() == 4
                &&& inputs[0].scan == held % 0x1_0000
                &&& inputs[1].scan == scan % 0x1_0000
                &&& inputs[2].scan == scan % 0x1_0000
                &&& inputs[3].scan == held % 0x1_0000
            }
            &&& held == 0 ==> {
                &&& inputs.len() == 2
                &&& inputs[0].scan == scan % 0x1_0000
                &&& inputs[1].scan == scan % 0x1_0000
            }
            &&& 0 <= i < inputs.len() ==> {
                &&& inputs[i].flags == if 2 * i < inputs.len() {
                    0x8
                } else {
                    0xAint
                }
                &&& inputs[i].vk == 0
                &&& inputs[i].time == 0
                &&& inputs[i].extra_info == 1
            }
        }),
{
}

/// The keys that lead out of a mode: Ctrl held around CapsLock in direct input, Alt held around
/// CapsLock in hiragana, and the half-width/full-width key alone, by its scan code, in katakana.
pub proof fn law_keys_of_each_step(conv: int)
    ensures
        ({
            let inputs = tap_inputs(ja_tap(ja_mode_of(conv)));
            let held = if conv % 2 == 0 {
                VK_LCONTROL
            } else {
                VK_LMENU
            };
            &&& conv % 4 != 3 ==> {
                &&& inputs.len() == 4
                &&& inputs[0].vk == held && inputs[0].flags == 0
                &&& inputs[1].vk == VK_CAPITAL && inputs[1].flags == 0
                &&& inputs[2].vk == VK_CAPITAL && inputs[2].flags == 0x2
                &&& inputs[3].vk == held && inputs[3].flags == 0x2
            }
            &&& conv % 4 == 3 ==> {
                &&& inputs.len() == 2
                &&& inputs[0].vk == 0 && inputs[0].scan == 0x29 && inputs[0].flags == 0x8
                &&& inputs[1].vk == 0 && inputs[1].scan == 0x29 && inputs[1].flags == 0xA
            }
        }),
{
}

/// What is shown of an input method: a Japanese one by its mode, a Chinese one as Chinese where it
/// is open and native, a Korean one as Korean where it is native, open or not; else English.
pub proof fn law_indicators_follow_the_state(conv: int, open: bool, native: bool)
    ensures
        ja_indicator(ja_mode_of(conv)) == Indicator::En <==> conv % 2 == 0,
        ja_indicator(ja_mode_of(conv)) == Indicator::JaHiragana <==> conv % 4 == 1,
        ja_indicator(ja_mode_of(conv)) == Indicator::JaKatakana <==> conv % 4 == 3,
        zh_indicator(ImeState { open, native }) == if open && native {
            Indicator::Zh
        } else {
            Indicator::En
        },
        ko_indicator(ImeState { open, native }) == ko_indicator(ImeState { open: !open, native }),
        ko_indicator(ImeState { open, native }) == Indicator::Ko <==> native,
        ko_indicator(ImeState { open, native }) == Indicator::En <==> !native,
{
}

} // verus!
