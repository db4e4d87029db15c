//! Asking the foreground input method how it stands, one Win32 call at a time.
//!
//! There are two channels. The first joins the input queues of the two threads and reads the
//! input context of the foreground window; the second sends `WM_IME_CONTROL` to the default
//! input method window. A probe is a step: it names the call that it waits for, and the reply to
//! that call leads to the next step. Whoever drives it makes the calls and keeps the handles.

use vstd::prelude::*;

use crate::ime_toggle::query;
use crate::win32::{IMC_GETCONVERSIONMODE, IMC_GETOPENSTATUS};

verus! {

/// A call that a probe waits for.
#[derive(Clone, Copy, PartialEq, Eq, Debug, Structural)]
pub enum Call {
    /// `GetForegroundWindow`, and the keyboard layout of the thread that owns the window.
    Foreground,
    /// `GetWindowThreadProcessId` of the foreground window, and `GetCurrentThreadId`.
    ThreadIds,
    /// `AttachThreadInput` that joins the two input queues.
    Attach,
    /// `ImmGetContext` of the foreground window.
    GetContext,
    /// `ImmGetOpenStatus` of the context.
    GetOpenStatus,
    /// `ImmGetConversionStatus` of the context.
    GetConversionStatus,
    /// `ImmReleaseContext`.
    ReleaseContext,
    /// `AttachThreadInput` that parts the two input queues.
    Detach,
    /// `ImmGetDefaultIMEWnd` of the foreground window.
    FindImeWindow,
    /// `SendMessageTimeoutW` of `WM_IME_CONTROL` with this control code.
    Query(u32),
}

/// What came back from a call.
#[derive(Clone, Copy, PartialEq, Eq, Debug, Structural)]
pub enum Reply {
    /// The layout handle of the foreground thread; `None` where there is no foreground window.
    Foreground(Option<usize>),
    /// The thread of the foreground window and the calling thread.
    ThreadIds { foreground: u32, current: u32 },
    /// Success, a valid handle, or an open input method, as the call has it.
    Flag(bool),
    /// Whether the conversion status was read, and the mode read.
    Conversion { got: bool, mode: u32 },
    /// What the message call returned, and the answer of the window.
    Answer { ok: isize, value: usize },
    /// The call returned, and its result is not looked at.
    Returned,
}

/// What an input context said of itself.
#[derive(Clone, Copy, PartialEq, Eq, Debug, Structural)]
pub struct ContextStatus {
    pub open: bool,
    pub got: bool,
    pub mode: u32,
}

/// Which of the calls on an input context a probe makes.
#[derive(Clone, Copy, PartialEq, Eq, Debug, Structural)]
pub struct ContextPlan {
    pub read_open: bool,
    pub release: bool,
}

/// Where a probe of the input context stands.
#[derive(Clone, Copy, PartialEq, Eq, Debug, Structural)]
pub enum ContextStep {
    ThreadIds,
    Attach,
    GetContext { attached: bool },
    GetOpenStatus { attached: bool },
    GetConversionStatus { attached: bool, open: bool },
    ReleaseContext { attached: bool, status: ContextStatus },
    Detach { found: Option<ContextStatus> },
    Finished { found: Option<ContextStatus> },
}

/// The call that a probe of the input context waits for.
pub open spec fn context_call_of(step: ContextStep) -> Option<Call> {
    match step {
        ContextStep::ThreadIds => Some(Call::ThreadIds),
        ContextStep::Attach => Some(Call::Attach),
        ContextStep::GetContext { .. } => Some(Call::GetContext),
        ContextStep::GetOpenStatus { .. } => Some(Call::GetOpenStatus),
        ContextStep::GetConversionStatus { .. } => Some(Call::GetConversionStatus),
        ContextStep::ReleaseContext { .. } => Some(Call::ReleaseContext),
        ContextStep::Detach { .. } => Some(Call::Detach),
        ContextStep::Finished { .. } => None,
    }
}

/// The end of a probe: the input queues are parted first where they were joined.
pub open spec fn context_end(attached: bool, found: Option<ContextStatus>) -> ContextStep {
    if attached {
        ContextStep::Detach { found }
    } else {
        ContextStep::Finished { found }
    }
}

/// The step after a reply. A reply to another call than the pending one changes nothing.
pub open spec fn context_next(plan: ContextPlan, step: ContextStep, reply: Reply) -> ContextStep {
    match (step, reply) {
        (ContextStep::ThreadIds, Reply::ThreadIds { foreground, current }) => if foreground
            != current {
            ContextStep::Attach
        } else {
            ContextStep::GetContext { attached: false }
        },
        (ContextStep::Attach, Reply::Flag(joined)) => ContextStep::GetContext { attached: joined },
        (ContextStep::GetContext { attached }, Reply::Flag(valid)) => if !valid {
            context_end(attached, None)
        } else if plan.read_open {
            ContextStep::GetOpenStatus { attached }
        } else {
            ContextStep::GetConversionStatus { attached, open: false }
        },
        (
            ContextStep::GetOpenStatus { attached },
            Reply::Flag(open),
        ) => ContextStep::GetConversionStatus { attached, open },
        (
            ContextStep::GetConversionStatus { attached, open },
            Reply::Conversion { got, mode },
        ) => {
            let status = ContextStatus { open, got, mode };
            if plan.release {
                ContextStep::ReleaseContext { attached, status }
            } else {
                context_end(attached, Some(status))
            }
        },
        (ContextStep::ReleaseContext { attached, status }, Reply::Returned) => context_end(
            attached,
            Some(status),
        ),
        (ContextStep::Detach { found }, Reply::Returned) => ContextStep::Finished { found },
        _ => step,
    }
}

/// The call that a probe of the input context waits for; `None` once it is finished.
pub fn context_call(step: ContextStep) -> (call: Option<Call>)
    ensures
        call == context_call_of(step),
{
    match step {
        ContextStep::ThreadIds => Some(Call::ThreadIds),
        ContextStep::Attach => Some(Call::Attach),
        ContextStep::GetContext { .. } => Some(Call::GetContext),
        ContextStep::GetOpenStatus { .. } => Some(Call::GetOpenStatus),
        ContextStep::GetConversionStatus { .. } => Some(Call::GetConversionStatus),
        ContextStep::ReleaseContext { .. } => Some(Call::ReleaseContext),
        ContextStep::Detach { .. } => Some(Call::Detach),
        ContextStep::Finished { .. } => None,
    }
}

fn end_context(attached: bool, found: Option<ContextStatus>) -> (step: ContextStep)
    ensures
        step == context_end(attached, found),
{
    if attached {
        ContextStep::Detach { found }
    } else {
        ContextStep::Finished { found }
    }
}

/// Takes a probe of the input context over one reply.
pub fn step_context(plan: ContextPlan, step: ContextStep, reply: Reply) -> (next: ContextStep)
    ensures
        next == context_next(plan, step, reply),
{
    match (step, reply) {
        (ContextStep::ThreadIds, Reply::ThreadIds { foreground, current }) => {
            if foreground != current {
                ContextStep::Attach
            } else {
                ContextStep::GetContext { attached: false }
            }
        },
        (ContextStep::Attach, Reply::Flag(joined)) => ContextStep::GetContext { attached: joined },
        (ContextStep::GetContext { attached }, Reply::Flag(valid)) => {
            if !valid {
                end_context(attached, None)
            } else if plan.read_open {
                ContextStep::GetOpenStatus { attached }
            } else {
                ContextStep::GetConversionStatus { attached, open: false }
            }
        },
        (ContextStep::GetOpenStatus { attached }, Reply::Flag(open)) => {
            ContextStep::GetConversionStatus { attached, open }
        },
        (
            ContextStep::GetConversionStatus { attached, open },
            Reply::Conversion { got, mode },
        ) => {
            let status = ContextStatus { open, got, mode };
            if plan.release {
                ContextStep::ReleaseContext { attached, status }
            } else {
                end_context(attached, Some(status))
            }
        },
        (ContextStep::ReleaseContext { attached, status }, Reply::Returned) => {
            end_context(attached, Some(status))
        },
        (ContextStep::Detach { found }, Reply::Returned) => ContextStep::Finished { found },
        _ => step,
    }
}

/// Whether an input method is open, and whether it writes its native language.
#[derive(Clone, Copy, PartialEq, Eq, Debug, Structural)]
pub struct ImeState {
    pub open: bool,
    pub native: bool,
}

/// Where a probe of the default input method window stands.
#[derive(Clone, Copy, PartialEq, Eq, Debug, Structural)]
pub enum WindowStep {
    Find,
    OpenStatus,
    ConversionMode { open: bool },
    /// The state, where both questions were answered.
    Finished { found: Option<ImeState> },
}

/// The call that a probe of the input method window waits for.
pub open spec fn window_call_of(step: WindowStep) -> Option<Call> {
    match step {
        WindowStep::Find => Some(Call::FindImeWindow),
        WindowStep::OpenStatus => Some(Call::Query(IMC_GETOPENSTATUS)),
        WindowStep::ConversionMode { .. } => Some(Call::Query(IMC_GETCONVERSIONMODE)),
        WindowStep::Finished { .. } => None,
    }
}

/// The native language bit of a conversion mode, its lowest.
pub open spec fn native_bit(mode: int) -> bool {
    mode % 2 == 1
}

/// The step after a reply. The first question that stays unanswered ends the probe.
pub open spec fn window_next(step: WindowStep, reply: Reply) -> WindowStep {
    match (step, reply) {
        (WindowStep::Find, Reply::Flag(found)) => if found {
            WindowStep::OpenStatus
        } else {
            WindowStep::Finished { found: None }
        },
        (WindowStep::OpenStatus, Reply::Answer { ok, value }) => if ok == 0 {
            WindowStep::Finished { found: None }
        } else {
            WindowStep::ConversionMode { open: value != 0 }
        },
        (WindowStep::ConversionMode { open }, Reply::Answer { ok, value }) => if ok == 0 {
            WindowStep::Finished { found: None }
        } else {
            WindowStep::Finished { found: Some(ImeState { open, native: native_bit(value as int) }) }
        },
        _ => step,
    }
}

/// The call that a probe of the input method window waits for; `None` once it is finished.
pub fn window_call(step: WindowStep) -> (call: Option<Call>)
    ensures
        call == window_call_of(step),
{
    match step {
        WindowStep::Find => Some(Call::FindImeWindow),
        WindowStep::OpenStatus => Some(Call::Query(IMC_GETOPENSTATUS)),
        WindowStep::ConversionMode { .. } => Some(Call::Query(IMC_GETCONVERSIONMODE)),
        WindowStep::Finished { .. } => None,
    }
}

/// Takes a probe of the input method window over one reply.
pub fn step_window(step: WindowStep, reply: Reply) -> (next: WindowStep)
    ensures
        next == window_next(step, reply),
{
    match (step, reply) {
        (WindowStep::Find, Reply::Flag(found)) => {
            if found {
                WindowStep::OpenStatus
            } else {
                WindowStep::Finished { found: None }
            }
        },
        (WindowStep::OpenStatus, Reply::Answer { ok, value }) => {
            match query(ok, value) {
                Some(answer) => WindowStep::ConversionMode { open: answer != 0 },
                None => WindowStep::Finished { found: None },
            }
        },
        (WindowStep::ConversionMode { open }, Reply::Answer { ok, value }) => {
            match query(ok, value) {
                Some(answer) => {
                    assert((answer & 1 != 0) == (answer % 2 == 1)) by (bit_vector);
                    WindowStep::Finished { found: Some(ImeState { open, native: answer & 1 != 0 }) }
                },
                None => WindowStep::Finished { found: None },
            }
        },
        _ => step,
    }
}

/// How the outside would reply to every call that a probe can make.
pub struct Outside {
    pub layout: Option<usize>,
    pub foreground_thread: u32,
    pub current_thread: u32,
    pub joins: bool,
    pub has_context: bool,
    pub open: bool,
    pub got: bool,
    pub mode: u32,
    pub has_window: bool,
    pub open_ok: isize,
    pub open_value: usize,
    pub mode_ok: isize,
    pub mode_value: usize,
}

/// The reply of the outside to a call.
pub open spec fn reply_of(o: Outside, call: Call) -> Reply {
    match call {
        Call::Foreground => Reply::Foreground(o.layout),
        Call::ThreadIds => Reply::ThreadIds {
            foreground: o.foreground_thread,
            current: o.current_thread,
        },
        Call::Attach => Reply::Flag(o.joins),
        Call::GetContext => Reply::Flag(o.has_context),
        Call::GetOpenStatus => Reply::Flag(o.open),
        Call::GetConversionStatus => Reply::Conversion { got: o.got, mode: o.mode },
        Call::ReleaseContext => Reply::Returned,
        Call::Detach => Reply::Returned,
        Call::FindImeWindow => Reply::Flag(o.has_window),
        Call::Query(code) => if code == IMC_GETOPENSTATUS {
            Reply::Answer { ok: o.open_ok, value: o.open_value }
        } else {
            Reply::Answer { ok: o.mode_ok, value: o.mode_value }
        },
    }
}

/// The input context is read: there is one and it tells its conversion mode.
pub open spec fn context_reads(o: Outside) -> bool {
    o.has_context && o.got
}

/// The step a probe of the input context reaches in at most `n` calls, and the calls it made.
pub open spec fn context_run(plan: ContextPlan, o: Outside, step: ContextStep, n: nat) -> (
    Seq<Call>,
    ContextStep,
)
    decreases n,
{
    match context_call_of(step) {
        Some(call) if n > 0 => {
            let rest = context_run(
                plan,
                o,
                context_next(plan, step, reply_of(o, call)),
                (n - 1) as nat,
            );
            (seq![call] + rest.0, rest.1)
        },
        _ => (Seq::empty(), step),
    }
}

/// One call or none.
pub open spec fn call_if(made: bool, call: Call) -> Seq<Call> {
    if made {
        seq![call]
    } else {
        Seq::empty()
    }
}

/// The calls of a whole probe of the input context, in order.
pub open spec fn context_calls(plan: ContextPlan, o: Outside) -> Seq<Call> {
    let other_thread = o.foreground_thread != o.current_thread;
    seq![Call::ThreadIds] + call_if(other_thread, Call::Attach) + seq![Call::GetContext] + call_if(
        o.has_context && plan.read_open,
        Call::GetOpenStatus,
    ) + call_if(o.has_context, Call::GetConversionStatus) + call_if(
        o.has_context && plan.release,
        Call::ReleaseContext,
    ) + call_if(other_thread && o.joins, Call::Detach)
}

/// What a whole probe of the input context finds.
pub open spec fn context_found(plan: ContextPlan, o: Outside) -> Option<ContextStatus> {
    if o.has_context {
        Some(ContextStatus { open: plan.read_open && o.open, got: o.got, mode: o.mode })
    } else {
        None
    }
}

proof fn run_from_end(
    plan: ContextPlan,
    o: Outside,
    attached: bool,
    found: Option<ContextStatus>,
    n: nat,
)
    requires
        n >= 1,
    ensures
        context_run(plan, o, context_end(attached, found), n) == (
            call_if(attached, Call::Detach),
            ContextStep::Finished { found },
        ),
{
    reveal_with_fuel(context_run, 2);
    assert(context_run(plan, o, context_end(attached, found), n).0 =~= call_if(
        attached,
        Call::Detach,
    ));
}

proof fn run_from_conversion(plan: ContextPlan, o: Outside, attached: bool, open: bool, n: nat)
    requires
        n >= 3,
    ensures
        context_run(plan, o, ContextStep::GetConversionStatus { attached, open }, n) == (
            seq![Call::GetConversionStatus] + call_if(plan.release, Call::ReleaseContext) + call_if(
                attached,
                Call::Detach,
            ),
            ContextStep::Finished {
                found: Some(ContextStatus { open, got: o.got, mode: o.mode }),
            },
        ),
{
    let status = ContextStatus { open, got: o.got, mode: o.mode };
    let step = ContextStep::GetConversionStatus { attached, open };
    let next = context_next(plan, step, reply_of(o, Call::GetConversionStatus));
    run_from_end(plan, o, attached, Some(status), (n - 1) as nat);
    run_from_end(plan, o, attached, Some(status), (n - 2) as nat);
    if plan.release {
        assert(context_run(plan, o, next, (n - 1) as nat).0 =~= seq![Call::ReleaseContext]
            + call_if(attached, Call::Detach));
    }
    assert(context_run(plan, o, step, n).0 =~= seq![Call::GetConversionStatus] + call_if(
        plan.release,
        Call::ReleaseContext,
    ) + call_if(attached, Call::Detach));
}

proof fn run_from_context(plan: ContextPlan, o: Outside, attached: bool, n: nat)
    requires
        n >= 5,
    ensures
        context_run(plan, o, ContextStep::GetContext { attached }, n) == (
            seq![Call::GetContext] + call_if(o.has_context && plan.read_open, Call::GetOpenStatus)
                + call_if(o.has_context, Call::GetConversionStatus) + call_if(
                o.has_context && plan.release,
                Call::ReleaseContext,
            ) + call_if(attached, Call::Detach),
            ContextStep::Finished { found: context_found(plan, o) },
        ),
{
    let step = ContextStep::GetContext { attached };
    let next = context_next(plan, step, reply_of(o, Call::GetContext));
    if !o.has_context {
        run_from_end(plan, o, attached, None, (n - 1) as nat);
    } else if plan.read_open {
        run_from_conversion(plan, o, attached, o.open, (n - 2) as nat);
        assert(context_run(plan, o, next, (n - 1) as nat).0 =~= seq![Call::GetOpenStatus]
            + context_run(
            plan,
            o,
            ContextStep::GetConversionStatus { attached, open: o.open },
            (n - 2) as nat,
        ).0);
    } else {
        run_from_conversion(plan, o, attached, false, (n - 1) as nat);
    }
    assert(context_run(plan, o, step, n).0 =~= seq![Call::GetContext] + call_if(
        o.has_context && plan.read_open,
        Call::GetOpenStatus,
    ) + call_if(o.has_context, Call::GetConversionStatus) + call_if(
        o.has_context && plan.release,
        Call::ReleaseContext,
    ) + call_if(attached, Call::Detach));
}

/// A probe of the input context ends within seven calls, whatever the replies. It joins the
/// input queues only where the threads differ and parts them exactly where they were joined,
/// last of all; and it releases exactly the context that it got, where its plan releases.
pub proof fn law_context_probe_puts_everything_back(plan: ContextPlan, o: Outside, n: nat)
    requires
        n >= 7,
    ensures
        context_run(plan, o, ContextStep::ThreadIds, n) == (
            context_calls(plan, o),
            ContextStep::Finished { found: context_found(plan, o) },
        ),
{
    let other_thread = o.foreground_thread != o.current_thread;
    let next = context_next(plan, ContextStep::ThreadIds, reply_of(o, Call::ThreadIds));
    if other_thread {
        run_from_context(plan, o, o.joins, (n - 2) as nat);
        assert(context_run(plan, o, next, (n - 1) as nat).0 =~= seq![Call::Attach] + context_run(
            plan,
            o,
            ContextStep::GetContext { attached: o.joins },
            (n - 2) as nat,
        ).0);
    } else {
        run_from_context(plan, o, false, (n - 1) as nat);
    }
    assert(context_run(plan, o, ContextStep::ThreadIds, n).0 =~= context_calls(plan, o));
}

/// What the probe of an input context finds, and the calls that it makes, each in its place: the
/// threads are told apart first, the queues are joined only where they differ, the context is
/// asked where there is one, it is given back before the queues are parted, and they are parted
/// last, exactly where they were joined.
pub proof fn law_context_probe_makes_these_calls(plan: ContextPlan, o: Outside, n: nat)
    requires
        n >= 7,
    ensures
        ({
            let none = Seq::<Call>::empty();
            let other_thread = o.foreground_thread != o.current_thread;
            let (calls, end) = context_run(plan, o, ContextStep::ThreadIds, n);
            &&& calls == seq![Call::ThreadIds] + (if other_thread {
                seq![Call::Attach]
            } else {
                none
            }) + seq![Call::GetContext] + (if o.has_context && plan.read_open {
                seq![Call::GetOpenStatus]
            } else {
                none
            }) + (if o.has_context {
                seq![Call::GetConversionStatus]
            } else {
                none
            }) + (if o.has_context && plan.release {
                seq![Call::ReleaseContext]
            } else {
                none
            }) + (if other_thread && o.joins {
                seq![Call::Detach]
            } else {
                none
            })
            &&& end == (ContextStep::Finished {
                found: if o.has_context {
                    Some(
                        ContextStatus {
                            open: plan.read_open && o.open,
                            got: o.got,
                            mode: o.mode,
                        },
                    )
                } else {
                    None
                },
            })
        }),
{
    law_context_probe_puts_everything_back(plan, o, n);
}

} // verus!
