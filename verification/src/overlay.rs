//! The language indicator: after a switch it shows the language in the middle of the screen for
//! a moment, and fades.
//!
//! English is blue, Chinese red, Japanese yellow, Korean black.

use vstd::prelude::*;

use crate::ime_toggle::{primary_lang, PrimaryLang, IME_CMODE_NATIVE};
use crate::probe::{
    context_call, step_context, step_window, window_call, Call, ContextPlan, ContextStatus,
    ContextStep, ImeState, Outside, Reply, WindowStep,
};
use crate::win32::{WM_APP, WM_DESTROY, WM_PAINT, WM_QUIT, WM_TIMER};
use crate::window::{centered, half, quit_thread, Placement, Post, Rect, ThreadPost};

verus! {

// ---- measures ----

/// The height of the label, in pixels.
pub const FONT_SIZE_PX: i32 = 24;

/// The room at the left and at the right of the label.
pub const PAD_X: i32 = 20;

/// The room above and below the label.
pub const PAD_Y: i32 = 12;

/// How long an injected switch is given to take effect before the language is read.
pub const READ_DELAY_MS: u32 = 20;

/// How long the overlay shows in full.
pub const SHOW_MS: u32 = 300;

/// How long it fades.
pub const FADE_MS: u32 = 300;

/// The time between two steps of the animation.
pub const TICK_MS: u32 = 16;

/// The opacity while it shows in full, of 255.
pub const BASE_ALPHA: u8 = 235;

/// The colour that is cut out of the window.
pub const COLOR_KEY: u32 = 0x00FF_00FF;

/// The colour behind the label.
pub const PILL_COLOR: u32 = 0x00FA_FAFA;

/// The timer that ends the wait before the language is read.
pub const TIMER_READ: usize = 1;

/// The timer of the animation.
pub const TIMER_ANIM: usize = 2;

/// The message that asks to switch and to show the language.
pub const WM_APP_SHOW: u32 = WM_APP + 1;

/// The message that asks to show whether capitals are locked.
pub const WM_APP_CAPS: u32 = WM_APP + 2;

// ---- what is shown ----

/// What the overlay shows.
#[derive(Clone, Copy, PartialEq, Eq, Debug, Structural)]
pub enum Indicator {
    En,
    Zh,
    Ja,
    JaHiragana,
    JaKatakana,
    Ko,
    /// Capitals are locked.
    Upper,
    /// Capitals are not locked.
    Lower,
}

/// A label and its colour.
#[derive(Clone, Copy, PartialEq, Eq, Debug)]
pub struct LangDisplay {
    pub label: &'static str,
    pub color: u32,
}

/// A colour as Win32 holds it: red in the low byte, then green, then blue.
pub open spec fn colorref(r: int, g: int, b: int) -> int {
    r + 0x100 * g + 0x1_0000 * b
}

/// Puts a colour together. Parts of a byte each take a byte each.
pub fn rgb(r: u32, g: u32, b: u32) -> (color: u32)
    ensures
        color == r | (g << 8) | (b << 16),
        r < 0x100 && g < 0x100 && b < 0x100 ==> color == colorref(r as int, g as int, b as int),
{
    assert(r < 0x100 && g < 0x100 && b < 0x100 ==> (r | (g << 8) | (b << 16)) == r + 0x100 * g
        + 0x1_0000 * b) by (bit_vector);
    r | (g << 8) | (b << 16)
}

/// The label of an indicator.
pub open spec fn label_of(shown: Indicator) -> Seq<char> {
    match shown {
        Indicator::En => "EN"@,
        Indicator::Zh => "中"@,
        Indicator::Ja => "日"@,
        Indicator::JaHiragana => "あ"@,
        Indicator::JaKatakana => "ア"@,
        Indicator::Ko => "韩"@,
        Indicator::Upper => "大写"@,
        Indicator::Lower => "小写"@,
    }
}

/// The colour of an indicator.
pub open spec fn color_of(shown: Indicator) -> int {
    match shown {
        Indicator::En => colorref(0x1E, 0x70, 0xEB),
        Indicator::Zh => colorref(0xE5, 0x39, 0x35),
        Indicator::Ja => colorref(0xD4, 0x8E, 0x00),
        Indicator::JaHiragana => colorref(0xD4, 0x8E, 0x00),
        Indicator::JaKatakana => colorref(0xD4, 0x8E, 0x00),
        Indicator::Ko => colorref(0x21, 0x21, 0x21),
        Indicator::Upper => colorref(0x1E, 0x70, 0xEB),
        Indicator::Lower => colorref(0x1E, 0x70, 0xEB),
    }
}

/// The label and colour of an indicator.
pub fn lang_display(shown: Indicator) -> (display: LangDisplay)
    ensures
        display.label@ == label_of(shown),
        display.color == color_of(shown),
{
    match shown {
        Indicator::En => LangDisplay { label: "EN", color: rgb(0x1E, 0x70, 0xEB) },
        Indicator::Zh => LangDisplay { label: "中", color: rgb(0xE5, 0x39, 0x35) },
        Indicator::Ja => LangDisplay { label: "日", color: rgb(0xD4, 0x8E, 0x00) },
        Indicator::JaHiragana => LangDisplay { label: "あ", color: rgb(0xD4, 0x8E, 0x00) },
        Indicator::JaKatakana => LangDisplay { label: "ア", color: rgb(0xD4, 0x8E, 0x00) },
        Indicator::Ko => LangDisplay { label: "韩", color: rgb(0x21, 0x21, 0x21) },
        Indicator::Upper => LangDisplay { label: "大写", color: rgb(0x1E, 0x70, 0xEB) },
        Indicator::Lower => LangDisplay { label: "小写", color: rgb(0x1E, 0x70, 0xEB) },
    }
}

// ---- messages to the overlay ----

/// The request to switch and show.
pub open spec fn language_request(window: usize) -> Post {
    Post { window, msg: WM_APP_SHOW, wparam: 0 }
}

/// The request to show whether capitals are locked.
pub open spec fn caps_request(window: usize, caps_on: bool) -> Post {
    Post {
        window,
        msg: WM_APP_CAPS,
        wparam: if caps_on {
            1
        } else {
            0
        },
    }
}

/// The message that asks the overlay to switch and show, where its window is up. It is all that
/// the keyboard hook does, since nothing may keep the hook waiting.
pub fn show_language_overlay(window: usize) -> (post: Option<Post>)
    ensures
        post == if window != 0 {
            Some(language_request(window))
        } else {
            None
        },
{
    if window != 0 {
        Some(Post { window, msg: WM_APP_SHOW, wparam: 0 })
    } else {
        None
    }
}

/// The message that asks the overlay to show whether capitals are locked, where its window is
/// up.
pub fn show_caps_overlay(window: usize, caps_on: bool) -> (post: Option<Post>)
    ensures
        post == if window != 0 {
            Some(caps_request(window, caps_on))
        } else {
            None
        },
{
    if window != 0 {
        let wparam: usize = if caps_on {
            1
        } else {
            0
        };
        Some(Post { window, msg: WM_APP_CAPS, wparam })
    } else {
        None
    }
}

/// The message that ends the overlay thread, where it runs.
pub fn post_quit(thread: u32) -> (post: Option<ThreadPost>)
    ensures
        post == if thread != 0 {
            Some(ThreadPost { thread, msg: WM_QUIT })
        } else {
            None
        },
{
    quit_thread(thread)
}

/// What a window message means to the overlay.
#[derive(Clone, Copy, PartialEq, Eq, Debug, Structural)]
pub enum OverlayEvent {
    RequestShow,
    RequestCaps(bool),
    Timer(usize),
    Paint,
    Quit,
    /// Left to the system.
    Other,
}

/// What a window message means.
pub open spec fn overlay_event(msg: u32, wparam: usize) -> OverlayEvent {
    if msg == WM_APP_SHOW {
        OverlayEvent::RequestShow
    } else if msg == WM_APP_CAPS {
        OverlayEvent::RequestCaps(wparam != 0)
    } else if msg == WM_TIMER {
        OverlayEvent::Timer(wparam)
    } else if msg == WM_PAINT {
        OverlayEvent::Paint
    } else if msg == WM_DESTROY {
        OverlayEvent::Quit
    } else {
        OverlayEvent::Other
    }
}

/// Sorts the messages of the overlay window.
pub fn wnd_proc(msg: u32, wparam: usize) -> (event: OverlayEvent)
    ensures
        event == overlay_event(msg, wparam),
{
    if msg == WM_APP_SHOW {
        OverlayEvent::RequestShow
    } else if msg == WM_APP_CAPS {
        OverlayEvent::RequestCaps(wparam != 0)
    } else if msg == WM_TIMER {
        OverlayEvent::Timer(wparam)
    } else if msg == WM_PAINT {
        OverlayEvent::Paint
    } else if msg == WM_DESTROY {
        OverlayEvent::Quit
    } else {
        OverlayEvent::Other
    }
}

/// A posted request arrives as what it asks for.
pub proof fn law_requests_arrive(window: usize, caps_on: bool)
    ensures
        ({
            let language = language_request(window);
            let caps = caps_request(window, caps_on);
            &&& overlay_event(language.msg, language.wparam) == OverlayEvent::RequestShow
            &&& overlay_event(caps.msg, caps.wparam) == OverlayEvent::RequestCaps(caps_on)
        }),
{
}

// ---- the animation ----

/// What the overlay thread is to do.
#[derive(Clone, Copy, PartialEq, Eq, Debug, Structural)]
pub enum OverlayAction {
    /// Switch the input method.
    Switch,
    /// Read the current language, and bring it up: `on_detected`.
    Detect,
    KillTimer(usize),
    SetTimer { id: usize, ms: u32 },
    /// Set the opacity of the window.
    SetAlpha(u8),
    /// Fit the window around the label, in the middle of the screen, and paint it.
    Layout,
    /// Show the window without taking the focus.
    Show,
    /// Put the window above all others.
    Raise,
    /// Start the animation: `on_shown`, with the clock.
    StartAnimation,
    Hide,
}

/// The overlay between two messages.
#[derive(Clone, Copy, PartialEq, Eq, Debug, Structural)]
pub struct OverlayState {
    /// The clock when the animation started, in milliseconds; zero while nothing is shown.
    pub anim_start: u64,
    pub shown: Indicator,
}

/// The overlay before anything is shown.
pub fn initial_state() -> (state: OverlayState)
    ensures
        state == (OverlayState { anim_start: 0, shown: Indicator::En }),
{
    OverlayState { anim_start: 0, shown: Indicator::En }
}

/// The opacity, so many milliseconds after the start: full, then falling evenly, then none.
pub open spec fn alpha_at(elapsed: int) -> int {
    if elapsed < SHOW_MS {
        BASE_ALPHA as int
    } else if elapsed < SHOW_MS + FADE_MS {
        BASE_ALPHA - (BASE_ALPHA * (elapsed - SHOW_MS)) / FADE_MS as int
    } else {
        0
    }
}

/// The opacity, so many milliseconds after the start.
pub fn alpha(elapsed: u32) -> (a: u8)
    ensures
        a == alpha_at(elapsed as int),
{
    if elapsed < SHOW_MS {
        BASE_ALPHA
    } else if elapsed < SHOW_MS + FADE_MS {
        let t: u32 = elapsed - SHOW_MS;
        assert(BASE_ALPHA * t == 235 * t) by (nonlinear_arith)
            requires
                BASE_ALPHA == 235,
        ;
        let gone: u32 = BASE_ALPHA as u32 * t / FADE_MS;
        BASE_ALPHA.saturating_sub(gone as u8)
    } else {
        0
    }
}

/// What a request to show comes to: the timers and the opacity are reset, and the language is
/// read a little later.
pub open spec fn request_show_actions() -> Seq<OverlayAction> {
    seq![
        OverlayAction::KillTimer(TIMER_READ),
        OverlayAction::KillTimer(TIMER_ANIM),
        OverlayAction::SetAlpha(BASE_ALPHA),
        OverlayAction::SetTimer { id: TIMER_READ, ms: READ_DELAY_MS },
    ]
}

/// Resets the overlay and starts the wait before the language is read.
pub fn on_request_show() -> (actions: Vec<OverlayAction>)
    ensures
        actions@ == request_show_actions(),
{
    vec![
        OverlayAction::KillTimer(TIMER_READ),
        OverlayAction::KillTimer(TIMER_ANIM),
        OverlayAction::SetAlpha(BASE_ALPHA),
        OverlayAction::SetTimer { id: TIMER_READ, ms: READ_DELAY_MS },
    ]
}

/// Switches the input method, and then asks to show: the wait is there for the switch to take
/// effect.
pub fn on_switch_request() -> (actions: Vec<OverlayAction>)
    ensures
        actions@ == seq![OverlayAction::Switch] + request_show_actions(),
{
    let mut actions: Vec<OverlayAction> = vec![OverlayAction::Switch];
    let mut rest: Vec<OverlayAction> = on_request_show();
    actions.append(&mut rest);
    actions
}

/// How an indicator is brought up. Its animation starts once it is shown in full.
pub open spec fn bring_up_actions() -> Seq<OverlayAction> {
    seq![
        OverlayAction::Layout,
        OverlayAction::Show,
        OverlayAction::Raise,
        OverlayAction::SetAlpha(BASE_ALPHA),
        OverlayAction::StartAnimation,
    ]
}

/// What the detection of an indicator comes to, and the overlay after it.
pub open spec fn detected_next(state: OverlayState, shown: Indicator) -> (
    OverlayState,
    Seq<OverlayAction>,
) {
    (OverlayState { shown, ..state }, bring_up_actions())
}

/// Brings up an indicator, and has its animation started.
pub fn on_detected(state: &mut OverlayState, shown: Indicator) -> (actions: Vec<OverlayAction>)
    ensures
        (*final(state), actions@) == detected_next(*old(state), shown),
{
    state.shown = shown;
    vec![
        OverlayAction::Layout,
        OverlayAction::Show,
        OverlayAction::Raise,
        OverlayAction::SetAlpha(BASE_ALPHA),
        OverlayAction::StartAnimation,
    ]
}

/// What the overlay shows of the lock.
pub open spec fn caps_indicator(caps_on: bool) -> Indicator {
    if caps_on {
        Indicator::Upper
    } else {
        Indicator::Lower
    }
}

/// What a request to show the lock comes to: the timers are stopped, and the lock is brought up.
pub open spec fn request_caps_actions() -> Seq<OverlayAction> {
    seq![OverlayAction::KillTimer(TIMER_READ), OverlayAction::KillTimer(TIMER_ANIM)]
        + bring_up_actions()
}

/// Stops whatever is shown or waited for, and brings up whether capitals are locked.
pub fn on_request_caps(state: &mut OverlayState, caps_on: bool) -> (actions: Vec<OverlayAction>)
    ensures
        *final(state) == (OverlayState { shown: caps_indicator(caps_on), ..*old(state) }),
        actions@ == request_caps_actions(),
{
    let shown = if caps_on {
        Indicator::Upper
    } else {
        Indicator::Lower
    };
    let mut actions: Vec<OverlayAction> = vec![
        OverlayAction::KillTimer(TIMER_READ),
        OverlayAction::KillTimer(TIMER_ANIM),
    ];
    let mut rest: Vec<OverlayAction> = on_detected(state, shown);
    actions.append(&mut rest);
    actions
}

/// What the start of an animation comes to, and the overlay after it.
pub open spec fn shown_next(state: OverlayState, now: u64) -> (OverlayState, Seq<OverlayAction>) {
    (
        OverlayState { anim_start: now, ..state },
        seq![OverlayAction::SetTimer { id: TIMER_ANIM, ms: TICK_MS }],
    )
}

/// Starts the animation of what was just brought up.
pub fn on_shown(state: &mut OverlayState, now: u64) -> (actions: Vec<OverlayAction>)
    ensures
        (*final(state), actions@) == shown_next(*old(state), now),
{
    state.anim_start = now;
    vec![OverlayAction::SetTimer { id: TIMER_ANIM, ms: TICK_MS }]
}

/// The milliseconds since the animation started.
pub open spec fn elapsed_of(state: OverlayState, now: int) -> int {
    now - state.anim_start
}

/// What a timer comes to, and the overlay after it.
pub open spec fn timer_next(state: OverlayState, id: usize, now: int) -> (
    OverlayState,
    Seq<OverlayAction>,
) {
    if id == TIMER_READ {
        (state, seq![OverlayAction::KillTimer(TIMER_READ), OverlayAction::Detect])
    } else if id == TIMER_ANIM && state.anim_start != 0 {
        let a = alpha_at(elapsed_of(state, now));
        if a == 0 {
            (
                OverlayState { anim_start: 0, ..state },
                seq![
                    OverlayAction::KillTimer(TIMER_ANIM),
                    OverlayAction::SetAlpha(0),
                    OverlayAction::Hide,
                ],
            )
        } else {
            (state, seq![OverlayAction::SetAlpha(a as u8)])
        }
    } else {
        (state, Seq::empty())
    }
}

/// A timer went off. The one that ends the wait asks for the language. A step of the animation
/// sets the opacity by the time since its start, and ends the animation where none is left. The
/// clock does not run backwards.
pub fn on_timer(state: &mut OverlayState, id: usize, now: u64) -> (actions: Vec<OverlayAction>)
    requires
        id == TIMER_ANIM ==> old(state).anim_start <= now,
    ensures
        (*final(state), actions@) == timer_next(*old(state), id, now as int),
{
    let start: u64 = state.anim_start;
    let mut actions: Vec<OverlayAction> = Vec::new();
    if id == TIMER_READ {
        actions.push(OverlayAction::KillTimer(TIMER_READ));
        actions.push(OverlayAction::Detect);
    } else if id == TIMER_ANIM && start != 0 {
        let since: u64 = now - start;
        let elapsed: u32 = if since < (SHOW_MS + FADE_MS) as u64 {
            since as u32
        } else {
            SHOW_MS + FADE_MS
        };
        let a: u8 = alpha(elapsed);
        if a == 0 {
            state.anim_start = 0;
            actions.push(OverlayAction::KillTimer(TIMER_ANIM));
            actions.push(OverlayAction::SetAlpha(0));
            actions.push(OverlayAction::Hide);
        } else {
            actions.push(OverlayAction::SetAlpha(a));
        }
    }
    actions
}

/// What an event comes to, and the overlay after it. Painting, ending and what is left to the
/// system come to no action.
pub open spec fn event_next(state: OverlayState, event: OverlayEvent, now: int) -> (
    OverlayState,
    Seq<OverlayAction>,
) {
    match event {
        OverlayEvent::RequestShow => (
            state,
            seq![OverlayAction::Switch] + request_show_actions(),
        ),
        OverlayEvent::RequestCaps(caps_on) => (
            OverlayState { shown: caps_indicator(caps_on), ..state },
            request_caps_actions(),
        ),
        OverlayEvent::Timer(id) => timer_next(state, id, now),
        _ => (state, Seq::empty()),
    }
}

/// Takes the overlay over one event. A request to show switches the input method first.
pub fn on_event(state: &mut OverlayState, event: OverlayEvent, now: u64) -> (actions: Vec<
    OverlayAction,
>)
    requires
        event == OverlayEvent::Timer(TIMER_ANIM) ==> old(state).anim_start <= now,
    ensures
        (*final(state), actions@) == event_next(*old(state), event, now as int),
{
    match event {
        OverlayEvent::RequestShow => on_switch_request(),
        OverlayEvent::RequestCaps(caps_on) => on_request_caps(state, caps_on),
        OverlayEvent::Timer(id) => on_timer(state, id, now),
        _ => Vec::new(),
    }
}

/// A request to show switches the input method once, before anything else; and nothing but such
/// a request switches it.
pub proof fn law_only_a_show_request_switches(
    state: OverlayState,
    event: OverlayEvent,
    now: int,
    i: int,
)
    requires
        0 <= i < event_next(state, event, now).1.len(),
    ensures
        event_next(state, event, now).1[i] == OverlayAction::Switch <==> event
            == OverlayEvent::RequestShow && i == 0,
{
}

/// Whatever is brought up has its animation started, as the last thing; and the animation, started
/// at the clock `start`, has hidden the overlay at the first step after it showed and faded. A
/// clock of zero is left out: it stands for no animation.
pub proof fn law_what_is_brought_up_fades(
    state: OverlayState,
    caps_on: bool,
    start: u64,
    now: int,
)
    requires
        start != 0,
        now >= start + SHOW_MS + FADE_MS,
    ensures
        bring_up_actions().last() == OverlayAction::StartAnimation,
        event_next(state, OverlayEvent::RequestCaps(caps_on), now).1.last()
            == OverlayAction::StartAnimation,
        event_next(
            OverlayState { anim_start: start, ..state },
            OverlayEvent::Timer(TIMER_ANIM),
            now,
        ) == (
            OverlayState { anim_start: 0, ..state },
            seq![
                OverlayAction::KillTimer(TIMER_ANIM),
                OverlayAction::SetAlpha(0),
                OverlayAction::Hide,
            ],
        ),
{
}

/// The opacity never rises while time goes on.
pub proof fn law_alpha_never_rises(earlier: int, later: int)
    requires
        0 <= earlier <= later,
    ensures
        0 <= alpha_at(later) <= alpha_at(earlier) <= BASE_ALPHA,
{
}

/// The overlay is visible for just as long as it shows and fades, and no opacity is left after.
pub proof fn law_alpha_is_gone_after_the_fade(elapsed: int)
    requires
        0 <= elapsed,
    ensures
        alpha_at(elapsed) == 0 <==> elapsed >= SHOW_MS + FADE_MS,
        elapsed < SHOW_MS ==> alpha_at(elapsed) == BASE_ALPHA,
{
}

/// The first step of the animation at or after the end of the fade hides the window; the steps
/// before it keep the animation going; and a step that comes after it changes nothing.
pub proof fn law_animation_ends(state: OverlayState, now: int, later: int)
    requires
        state.anim_start != 0,
        state.anim_start <= now,
    ensures
        ({
            let (next, actions) = timer_next(state, TIMER_ANIM, now);
            &&& next.shown == state.shown
            &&& now - state.anim_start < SHOW_MS + FADE_MS ==> next == state && actions == seq![
                OverlayAction::SetAlpha(alpha_at(now - state.anim_start) as u8),
            ]
            &&& now - state.anim_start >= SHOW_MS + FADE_MS ==> next.anim_start == 0 && actions
                == seq![
                OverlayAction::KillTimer(TIMER_ANIM),
                OverlayAction::SetAlpha(0),
                OverlayAction::Hide,
            ] && timer_next(next, TIMER_ANIM, later) == (next, Seq::<OverlayAction>::empty())
        }),
{
}

// ---- layout ----

/// The size of a text, or none where it could not be measured.
pub fn text_size(measured: bool, cx: i32, cy: i32) -> (size: (i32, i32))
    ensures
        size == if measured {
            (cx, cy)
        } else {
            (0i32, 0i32)
        },
{
    if measured {
        (cx, cy)
    } else {
        (0, 0)
    }
}

/// The window around a text of this size, in the middle of the screen.
pub open spec fn overlay_placement(tw: int, th: int, sw: int, sh: int) -> (int, int, int, int) {
    let width = tw + 2 * PAD_X;
    let height = th + 2 * PAD_Y;
    (
        crate::window::half_of(sw - width),
        crate::window::half_of(sh - height),
        width,
        height,
    )
}

/// Places the window around a text of size `tw` by `th` on a screen of size `sw` by `sh`.
pub fn layout_window(tw: i32, th: i32, sw: i32, sh: i32) -> (place: Placement)
    requires
        crate::window::fits(tw + 2 * PAD_X) && crate::window::fits(sw - (tw + 2 * PAD_X)),
        crate::window::fits(th + 2 * PAD_Y) && crate::window::fits(sh - (th + 2 * PAD_Y)),
    ensures
        (place.x as int, place.y as int, place.width as int, place.height as int)
            == overlay_placement(tw as int, th as int, sw as int, sh as int),
{
    let width: i32 = tw + PAD_X * 2;
    let height: i32 = th + PAD_Y * 2;
    Placement { x: centered(sw, width), y: centered(sh, height), width, height }
}

/// Where the parts of the overlay go.
#[derive(Clone, Copy, PartialEq, Eq, Debug, Structural)]
pub struct PaintPlan {
    /// The width and height of the ellipse at the corners.
    pub corner: i32,
    pub text_x: i32,
    pub text_y: i32,
}

/// The ellipse at the corners, and where a text of this size starts in the middle of `rc`.
pub open spec fn paint_places(rc: Rect, tw: int, th: int) -> (int, int, int) {
    (
        crate::window::half_of(rc.bottom - rc.top),
        rc.left + crate::window::half_of(rc.right - rc.left - tw),
        rc.top + crate::window::half_of(rc.bottom - rc.top - th),
    )
}

/// Places the rounded corners, and a text of size `tw` by `th` in the middle of `rc`.
pub fn on_paint(rc: Rect, tw: i32, th: i32) -> (plan: PaintPlan)
    requires
        crate::window::fits(rc.right - rc.left) && crate::window::fits(rc.bottom - rc.top),
        crate::window::fits(rc.right - rc.left - tw),
        crate::window::fits(rc.bottom - rc.top - th),
        crate::window::fits(rc.left + crate::window::half_of(rc.right - rc.left - tw)),
        crate::window::fits(rc.top + crate::window::half_of(rc.bottom - rc.top - th)),
    ensures
        (plan.corner as int, plan.text_x as int, plan.text_y as int) == paint_places(
            rc,
            tw as int,
            th as int,
        ),
{
    PaintPlan {
        corner: half(rc.bottom - rc.top),
        text_x: rc.left + centered(rc.right - rc.left, tw),
        text_y: rc.top + centered(rc.bottom - rc.top, th),
    }
}

/// In a window that was laid out for a text, the text is painted just inside the room around
/// it.
pub proof fn law_text_lies_inside_its_room(tw: int, th: int, sw: int, sh: int)
    ensures
        ({
            let (x, y, width, height) = overlay_placement(tw, th, sw, sh);
            crate::window::half_of(width - tw) == PAD_X && crate::window::half_of(height - th)
                == PAD_Y
        }),
{
}

// ---- the language ----

/// The calls on the input context when the language is detected. The context is not given back.
pub open spec fn language_plan() -> ContextPlan {
    ContextPlan { read_open: true, release: false }
}

/// What the input context says of the state. A conversion mode that was not read counts as not
/// native.
pub open spec fn via_context(found: Option<ContextStatus>) -> Option<ImeState> {
    match found {
        Some(status) => Some(
            ImeState {
                open: status.open,
                native: status.got && crate::probe::native_bit(status.mode as int),
            },
        ),
        None => None,
    }
}

/// Reads the state off what the input context said.
pub fn probe_via_context(found: Option<ContextStatus>) -> (state: Option<ImeState>)
    ensures
        state == via_context(found),
{
    match found {
        Some(status) => {
            let mode: u32 = status.mode;
            assert((mode & 0x0001 != 0) == (mode % 2 == 1)) by (bit_vector);
            Some(
                ImeState {
                    open: status.open,
                    native: status.got && mode & IME_CMODE_NATIVE != 0,
                },
            )
        },
        None => None,
    }
}

/// The language of a layout, shown where the state cannot be read.
pub open spec fn by_layout(lang: PrimaryLang) -> Indicator {
    match lang {
        PrimaryLang::Chinese => Indicator::Zh,
        PrimaryLang::Japanese => Indicator::Ja,
        PrimaryLang::Korean => Indicator::Ko,
        PrimaryLang::Other => Indicator::En,
    }
}

/// The language of a layout in a state. A Chinese or Japanese input method must be open and
/// native to count; for a Korean one the native bit decides.
pub open spec fn by_state(lang: PrimaryLang, state: ImeState) -> Indicator {
    let native = match lang {
        PrimaryLang::Chinese => state.open && state.native,
        PrimaryLang::Japanese => state.open && state.native,
        PrimaryLang::Korean => state.native,
        PrimaryLang::Other => false,
    };
    if native {
        by_layout(lang)
    } else {
        Indicator::En
    }
}

fn indicator_by_layout(lang: PrimaryLang) -> (shown: Indicator)
    ensures
        shown == by_layout(lang),
{
    match lang {
        PrimaryLang::Chinese => Indicator::Zh,
        PrimaryLang::Japanese => Indicator::Ja,
        PrimaryLang::Korean => Indicator::Ko,
        PrimaryLang::Other => Indicator::En,
    }
}

fn indicator_by_state(lang: PrimaryLang, state: ImeState) -> (shown: Indicator)
    ensures
        shown == by_state(lang, state),
{
    let native: bool = match lang {
        PrimaryLang::Chinese => state.open && state.native,
        PrimaryLang::Japanese => state.open && state.native,
        PrimaryLang::Korean => state.native,
        PrimaryLang::Other => false,
    };
    if native {
        indicator_by_layout(lang)
    } else {
        Indicator::En
    }
}

/// Where the detection of the language stands.
#[derive(Clone, Copy, PartialEq, Eq, Debug, Structural)]
pub enum LanguageStep {
    Foreground,
    Context { lang: PrimaryLang, inner: ContextStep },
    Window { lang: PrimaryLang, asked: WindowStep },
    Done { shown: Indicator },
}

/// The call that the detection waits for.
pub open spec fn language_call_of(step: LanguageStep) -> Option<Call> {
    match step {
        LanguageStep::Foreground => Some(Call::Foreground),
        LanguageStep::Context { inner, .. } => crate::probe::context_call_of(inner),
        LanguageStep::Window { asked, .. } => crate::probe::window_call_of(asked),
        LanguageStep::Done { .. } => None,
    }
}

/// The step after a reply.
pub open spec fn language_next(step: LanguageStep, reply: Reply) -> LanguageStep {
    match (step, reply) {
        (LanguageStep::Foreground, Reply::Foreground(layout)) => match layout {
            None => LanguageStep::Done { shown: Indicator::En },
            Some(handle) => LanguageStep::Context {
                lang: crate::ime_toggle::primary_lang_of(handle as int),
                inner: ContextStep::ThreadIds,
            },
        },
        (LanguageStep::Context { lang, inner }, _) => match crate::probe::context_next(
            language_plan(),
            inner,
            reply,
        ) {
            ContextStep::Finished { found } => match via_context(found) {
                Some(state) => LanguageStep::Done { shown: by_state(lang, state) },
                None => LanguageStep::Window { lang, asked: WindowStep::Find },
            },
            next => LanguageStep::Context { lang, inner: next },
        },
        (LanguageStep::Window { lang, asked }, _) => match crate::probe::window_next(
            asked,
            reply,
        ) {
            WindowStep::Finished { found } => match found {
                Some(state) => LanguageStep::Done { shown: by_state(lang, state) },
                None => LanguageStep::Done { shown: by_layout(lang) },
            },
            next => LanguageStep::Window { lang, asked: next },
        },
        _ => step,
    }
}

/// The call that the detection of the language waits for; `None` once it is done.
pub fn language_call(step: LanguageStep) -> (call: Option<Call>)
    ensures
        call == language_call_of(step),
{
    match step {
        LanguageStep::Foreground => Some(Call::Foreground),
        LanguageStep::Context { inner, .. } => context_call(inner),
        LanguageStep::Window { asked, .. } => window_call(asked),
        LanguageStep::Done { .. } => None,
    }
}

/// Takes the detection of the language over one reply.
pub fn detect_language(step: LanguageStep, reply: Reply) -> (next: LanguageStep)
    ensures
        next == language_next(step, reply),
{
    match (step, reply) {
        (LanguageStep::Foreground, Reply::Foreground(layout)) => match layout {
            None => LanguageStep::Done { shown: Indicator::En },
            Some(handle) => LanguageStep::Context {
                lang: primary_lang(handle),
                inner: ContextStep::ThreadIds,
            },
        },
        (LanguageStep::Context { lang, inner }, _) => {
            let plan = ContextPlan { read_open: true, release: false };
            match step_context(plan, inner, reply) {
                ContextStep::Finished { found } => match probe_via_context(found) {
                    Some(state) => LanguageStep::Done { shown: indicator_by_state(lang, state) },
                    None => LanguageStep::Window { lang, asked: WindowStep::Find },
                },
                next => LanguageStep::Context { lang, inner: next },
            }
        },
        (LanguageStep::Window { lang, asked }, _) => match step_window(asked, reply) {
            WindowStep::Finished { found } => match found {
                Some(state) => LanguageStep::Done { shown: indicator_by_state(lang, state) },
                None => LanguageStep::Done { shown: indicator_by_layout(lang) },
            },
            next => LanguageStep::Window { lang, asked: next },
        },
        _ => step,
    }
}

/// The language that is shown.
pub open spec fn language_detected(o: Outside) -> Indicator {
    match o.layout {
        None => Indicator::En,
        Some(handle) => {
            let lang = crate::ime_toggle::primary_lang_of(handle as int);
            if o.has_context {
                by_state(
                    lang,
                    ImeState {
                        open: o.open,
                        native: o.got && crate::probe::native_bit(o.mode as int),
                    },
                )
            } else if crate::ime_laws::window_tells_state(o) {
                by_state(lang, crate::ime_laws::window_state(o))
            } else {
                by_layout(lang)
            }
        },
    }
}

/// The step that the detection of the language reaches in at most `n` calls.
pub open spec fn language_run(o: Outside, step: LanguageStep, n: nat) -> LanguageStep
    decreases n,
{
    match language_call_of(step) {
        Some(call) if n > 0 => language_run(
            o,
            language_next(step, crate::probe::reply_of(o, call)),
            (n - 1) as nat,
        ),
        _ => step,
    }
}

proof fn language_run_through_context(
    o: Outside,
    lang: PrimaryLang,
    inner: ContextStep,
    k: nat,
    n: nat,
)
    requires
        o.layout is Some,
        lang == crate::ime_toggle::primary_lang_of(o.layout.unwrap() as int),
        crate::probe::context_call_of(inner) is Some,
        crate::probe::context_run(language_plan(), o, inner, k).1 == (ContextStep::Finished {
            found: crate::probe::context_found(language_plan(), o),
        }),
        n >= k + 3,
    ensures
        language_run(o, LanguageStep::Context { lang, inner }, n) == (LanguageStep::Done {
            shown: language_detected(o),
        }),
    decreases k,
{
    reveal_with_fuel(crate::probe::context_run, 2);
    let call = crate::probe::context_call_of(inner).unwrap();
    let next = crate::probe::context_next(
        language_plan(),
        inner,
        crate::probe::reply_of(o, call),
    );
    if crate::probe::context_call_of(next) is Some {
        language_run_through_context(o, lang, next, (k - 1) as nat, (n - 1) as nat);
    } else {
        reveal_with_fuel(language_run, 5);
    }
}

/// The language is detected within eleven calls: by the state that the context of the foreground
/// window tells, else by that of its input method window; and where neither tells one, by the
/// layout alone, so that an input method that cannot be read is not taken for English.
pub proof fn law_unreadable_language_is_that_of_the_layout(o: Outside, n: nat)
    requires
        n >= 11,
    ensures
        language_run(o, LanguageStep::Foreground, n) == (LanguageStep::Done {
            shown: language_detected(o),
        }),
{
    reveal_with_fuel(language_run, 2);
    if o.layout is Some {
        crate::probe::law_context_probe_puts_everything_back(language_plan(), o, 7);
        language_run_through_context(
            o,
            crate::ime_toggle::primary_lang_of(o.layout.unwrap() as int),
            ContextStep::ThreadIds,
            7,
            (n - 1) as nat,
        );
    }
}

// ---- what holds of every message, state and time ----

/// A window message means one thing: the two requests are told apart, a timer brings its number,
/// and what is none of these is left to the system.
pub proof fn law_messages_are_told_apart(msg: u32, wparam: usize)
    ensures
        ({
            let event = overlay_event(msg, wparam);
            &&& event == OverlayEvent::RequestShow <==> msg == WM_APP + 1
            &&& event is RequestCaps <==> msg == WM_APP + 2
            &&& msg == WM_APP + 2 ==> event == OverlayEvent::RequestCaps(wparam != 0)
            &&& event is Timer <==> msg == WM_TIMER
            &&& msg == WM_TIMER ==> event == OverlayEvent::Timer(wparam)
            &&& event == OverlayEvent::Paint <==> msg == WM_PAINT
            &&& event == OverlayEvent::Quit <==> msg == WM_DESTROY
        }),
{
}

/// A request is posted to the overlay window itself.
pub proof fn law_requests_go_to_the_overlay(window: usize, caps_on: bool)
    ensures
        language_request(window).window == window,
        caps_request(window, caps_on).window == window,
{
}

/// In every state, whether or not an animation is under way, a request to show switches, stops
/// both timers, makes the window opaque and starts the wait; and the timer that ends the wait
/// stops itself and has the language read. So every request is followed by a detection.
pub proof fn law_every_request_is_followed_by_a_detection(state: OverlayState, now: int, later: int)
    ensures
        event_next(state, OverlayEvent::RequestShow, now) == (
            state,
            seq![
                OverlayAction::Switch,
                OverlayAction::KillTimer(1),
                OverlayAction::KillTimer(2),
                OverlayAction::SetAlpha(235),
                OverlayAction::SetTimer { id: 1, ms: 20 },
            ],
        ),
        event_next(state, OverlayEvent::Timer(1), later) == (
            state,
            seq![OverlayAction::KillTimer(1), OverlayAction::Detect],
        ),
        TIMER_READ == 1 && TIMER_ANIM == 2 && BASE_ALPHA == 235 && READ_DELAY_MS == 20,
{
    assert(event_next(state, OverlayEvent::RequestShow, now).1 =~= seq![
        OverlayAction::Switch,
        OverlayAction::KillTimer(1),
        OverlayAction::KillTimer(2),
        OverlayAction::SetAlpha(235),
        OverlayAction::SetTimer { id: 1, ms: 20 },
    ]);
}

/// In every state, a request to show the lock stops both timers and brings the lock up: laid out,
/// shown, raised, opaque, and with its animation started.
pub proof fn law_every_lock_request_is_shown(state: OverlayState, caps_on: bool, now: int)
    ensures
        ({
            let (next, actions) = event_next(state, OverlayEvent::RequestCaps(caps_on), now);
            &&& next.shown == Indicator::Upper <==> caps_on
            &&& next.shown == Indicator::Lower <==> !caps_on
            &&& next.anim_start == state.anim_start
            &&& actions == seq![
                OverlayAction::KillTimer(1),
                OverlayAction::KillTimer(2),
                OverlayAction::Layout,
                OverlayAction::Show,
                OverlayAction::Raise,
                OverlayAction::SetAlpha(235),
                OverlayAction::StartAnimation,
            ]
        }),
        bring_up_actions() == seq![
            OverlayAction::Layout,
            OverlayAction::Show,
            OverlayAction::Raise,
            OverlayAction::SetAlpha(235),
            OverlayAction::StartAnimation,
        ],
{
    assert(event_next(state, OverlayEvent::RequestCaps(caps_on), now).1 =~= seq![
        OverlayAction::KillTimer(1),
        OverlayAction::KillTimer(2),
        OverlayAction::Layout,
        OverlayAction::Show,
        OverlayAction::Raise,
        OverlayAction::SetAlpha(235),
        OverlayAction::StartAnimation,
    ]);
}

/// A step of a running animation keeps the window opaque for 300 milliseconds, then takes from
/// its opacity in proportion to the time for 300 more, and then hides it for good. The start is
/// kept until then, and what is shown always.
pub proof fn law_animation_goes_by_the_clock(state: OverlayState, now: int)
    requires
        state.anim_start != 0,
        state.anim_start <= now,
    ensures
        ({
            let t = now - state.anim_start;
            let (next, actions) = event_next(state, OverlayEvent::Timer(2), now);
            &&& t < 300 ==> next == state && actions == seq![OverlayAction::SetAlpha(235)]
            &&& 300 <= t < 600 ==> {
                &&& next == state
                &&& actions.len() == 1
                &&& actions[0] matches OverlayAction::SetAlpha(a) && 0 < a && 300 * (235 - a) <= 235
                    * (t - 300) < 300 * (236 - a)
            }
            &&& t >= 600 ==> next == (OverlayState { anim_start: 0, shown: state.shown })
                && actions == seq![
                OverlayAction::KillTimer(2),
                OverlayAction::SetAlpha(0),
                OverlayAction::Hide,
            ]
        }),
{
    let t = now - state.anim_start;
    if 300 <= t < 600 {
        assert(alpha_at(t) == 235 - (235 * (t - 300)) / 300);
    }
}

/// Nothing comes of a step without an animation, of a timer of another number, or of a message
/// that asks for nothing.
pub proof fn law_idle_events_change_nothing(
    state: OverlayState,
    event: OverlayEvent,
    id: usize,
    now: int,
)
    requires
        ({
            ||| event == OverlayEvent::Timer(id) && id != 1 && id != 2
            ||| event == OverlayEvent::Timer(2) && state.anim_start == 0
            ||| event == OverlayEvent::Paint
            ||| event == OverlayEvent::Quit
            ||| event == OverlayEvent::Other
        }),
    ensures
        event_next(state, event, now) == (state, Seq::<OverlayAction>::empty()),
{
}

/// The opacity falls evenly: at each moment of the fade it is what is left of 235 in proportion
/// to the time, to within one.
pub proof fn law_alpha_falls_evenly(elapsed: int)
    ensures
        0 <= elapsed < 300 ==> alpha_at(elapsed) == 235,
        300 <= elapsed < 600 ==> 300 * (235 - alpha_at(elapsed)) <= 235 * (elapsed - 300) < 300 * (
        236 - alpha_at(elapsed)),
        elapsed >= 600 ==> alpha_at(elapsed) == 0,
{
}

/// The window is the text and its padding, and lies in the middle of the screen to within a
/// pixel, which goes after it where it fits.
pub proof fn law_window_surrounds_its_text(tw: int, th: int, sw: int, sh: int)
    ensures
        ({
            let (x, y, width, height) = overlay_placement(tw, th, sw, sh);
            &&& width == tw + 40
            &&& height == th + 24
            &&& width <= sw ==> 0 <= x <= sw - width - x <= x + 1
            &&& height <= sh ==> 0 <= y <= sh - height - y <= y + 1
            &&& width > sw ==> x - 1 <= sw - width - x <= x <= 0
            &&& height > sh ==> y - 1 <= sh - height - y <= y <= 0
        }),
{
}

/// English and the lock are blue, Chinese red, Japanese yellow in every mode, Korean black; red
/// is the low byte of a colour, then green, then blue.
pub proof fn law_colours_of_the_languages(shown: Indicator)
    ensures
        ({
            let red = color_of(shown) % 0x100;
            let green = color_of(shown) / 0x100 % 0x100;
            let blue = color_of(shown) / 0x1_0000;
            &&& shown is En || shown is Upper || shown is Lower ==> red == 0x1E && green == 0x70
                && blue == 0xEB
            &&& shown is Zh ==> red == 0xE5 && green == 0x39 && blue == 0x35
            &&& shown is Ja || shown is JaHiragana || shown is JaKatakana ==> red == 0xD4 && green
                == 0x8E && blue == 0
            &&& shown is Ko ==> red == 0x21 && green == 0x21 && blue == 0x21
        }),
{
}

/// No two indicators have the same label, and those of the languages are theirs.
pub proof fn law_labels_tell_apart(one: Indicator, other: Indicator)
    ensures
        label_of(one) == label_of(other) ==> one == other,
        one is En ==> label_of(one) == seq!['E', 'N'],
        one is Zh ==> label_of(one) == seq!['中'],
        one is Ja ==> label_of(one) == seq!['日'],
        one is Ko ==> label_of(one) == seq!['韩'],
        one is JaHiragana ==> label_of(one) == seq!['あ'],
        one is JaKatakana ==> label_of(one) == seq!['ア'],
        one is Upper ==> label_of(one) == seq!['大', '写'],
        one is Lower ==> label_of(one) == seq!['小', '写'],
{
    reveal_strlit("EN");
    reveal_strlit("中");
    reveal_strlit("日");
    reveal_strlit("あ");
    reveal_strlit("ア");
    reveal_strlit("韩");
    reveal_strlit("大写");
    reveal_strlit("小写");
    if label_of(one) == label_of(other) {
        assert(label_of(one)[0] == label_of(other)[0]);
    }
}

/// The detection of the language shows English where there is no foreground window and for every
/// layout that is none of the three. For the three, where the context or else the window tells
/// the state, it shows the language or English by that state: Chinese and Japanese must be open
/// and native, Korean native, whether open or not. Where neither tells it, the layout decides.
pub proof fn law_language_is_that_of_the_state(o: Outside, n: nat)
    requires
        n >= 11,
    ensures
        ({
            let run = language_run(o, LanguageStep::Foreground, n);
            let told = o.has_context || (o.has_window && o.open_ok != 0 && o.mode_ok != 0);
            let open = if o.has_context {
                o.open
            } else {
                o.open_value != 0
            };
            let native = if o.has_context {
                o.got && o.mode % 2 == 1
            } else {
                o.mode_value % 2 == 1
            };
            &&& run is Done
            &&& o.layout is None ==> run->shown == Indicator::En
            &&& o.layout matches Some(layout) ==> {
                let id = layout % 0x400;
                &&& id == 0x04 ==> run->shown == if !told || (open && native) {
                    Indicator::Zh
                } else {
                    Indicator::En
                }
                &&& id == 0x11 ==> run->shown == if !told || (open && native) {
                    Indicator::Ja
                } else {
                    Indicator::En
                }
                &&& id == 0x12 ==> run->shown == if !told || native {
                    Indicator::Ko
                } else {
                    Indicator::En
                }
                &&& id != 0x04 && id != 0x11 && id != 0x12 ==> run->shown == Indicator::En
            }
        }),
{
    law_unreadable_language_is_that_of_the_layout(o, n);
}

/// From the detection to the end: whatever was shown before and in whatever animation, the
/// detected indicator is brought up; its animation starts anew at the clock of its showing; it is
/// still shown up to 600 milliseconds later, and hidden by the first step from then on.
pub proof fn law_detected_indicator_is_shown_and_hidden(
    state: OverlayState,
    shown: Indicator,
    start: u64,
    now: int,
)
    requires
        start != 0,
        start <= now,
    ensures
        ({
            let (up, bring) = detected_next(state, shown);
            let (running, timer) = shown_next(up, start);
            let (after, actions) = event_next(running, OverlayEvent::Timer(2), now);
            &&& bring.contains(OverlayAction::Show) && bring.last() == OverlayAction::StartAnimation
            &&& up.shown == shown && up.anim_start == state.anim_start
            &&& running.shown == shown && running.anim_start == start
            &&& timer == seq![OverlayAction::SetTimer { id: 2, ms: 16 }]
            &&& after.shown == shown
            &&& actions.contains(OverlayAction::Hide) <==> now >= start + 600
            &&& after.anim_start == if now >= start + 600 {
                0
            } else {
                start
            }
        }),
{
    assert(bring_up_actions()[1] == OverlayAction::Show);
    let (running, timer) = shown_next(detected_next(state, shown).0, start);
    let actions = event_next(running, OverlayEvent::Timer(2), now).1;
    if now >= start + 600 {
        assert(actions[2] == OverlayAction::Hide);
    }
}

/// The text is painted in the middle of what is painted, to within a pixel, wherever that lies,
/// and the corners are as large as half its height.
pub proof fn law_text_is_painted_in_the_middle(rc: Rect, tw: int, th: int)
    ensures
        ({
            let (corner, x, y) = paint_places(rc, tw, th);
            let left = x - rc.left;
            let right = rc.right - (x + tw);
            let above = y - rc.top;
            let below = rc.bottom - (y + th);
            &&& -1 <= right - left <= 1 && -1 <= below - above <= 1
            &&& tw <= rc.right - rc.left ==> 0 <= left <= right
            &&& th <= rc.bottom - rc.top ==> 0 <= above <= below
            &&& tw > rc.right - rc.left ==> right <= left <= 0
            &&& th > rc.bottom - rc.top ==> below <= above <= 0
            &&& rc.bottom >= rc.top ==> 2 * corner <= rc.bottom - rc.top <= 2 * corner + 1
            &&& rc.bottom < rc.top ==> 2 * corner - 1 <= rc.bottom - rc.top <= 2 * corner
        }),
{
}

} // verus!
