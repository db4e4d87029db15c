//! Starting at logon with the rights of an administrator, by a task of the task scheduler.
//! Making and deleting the task each ask the user once for the rights.

use vstd::prelude::*;

use crate::utf16::encode_utf16_nul;

verus! {

/// The name of the task.
pub const TASK_NAME: &'static str = "CapsLockSwitcherAutostart";

/// The program that manages tasks.
pub const SCHTASKS: &'static str = "schtasks";

/// The arguments that ask the task manager whether the task is there.
pub fn query_args() -> (args: Vec<&'static str>)
    ensures
        args@.len() == 3,
        args@[0]@ == "/Query"@,
        args@[1]@ == "/TN"@,
        args@[2]@ == TASK_NAME@,
{
    vec!["/Query", "/TN", TASK_NAME]
}

/// Whether the program starts at logon: the task manager ran and found the task. `found` is none
/// where it could not be run.
pub fn is_enabled(found: Option<bool>) -> (enabled: bool)
    ensures
        enabled == (found == Some(true)),
{
    match found {
        Some(success) => success,
        None => false,
    }
}

/// What the menu item sets: the opposite of what is.
pub fn toggle_target(enabled: bool) -> (target: bool)
    ensures
        target == !enabled,
{
    !enabled
}

/// The arguments that make the task, for the program at `exe`: run at logon with the highest
/// rights, in place of a task of that name.
pub open spec fn create_params(exe: Seq<char>) -> Seq<char> {
    "/Create /TN \""@ + TASK_NAME@ + "\" /TR \"\\\""@ + exe
        + "\\\"\" /SC ONLOGON /RL HIGHEST /F"@
}

/// The arguments that delete the task.
pub open spec fn delete_params() -> Seq<char> {
    "/Delete /TN \""@ + TASK_NAME@ + "\" /F"@
}

/// The arguments that turn the start at logon on or off; `exe` is where the program lies, and is
/// not looked at when turning off. None where it is needed and not known: then nothing is run and
/// the setting fails.
pub fn set_enabled(enable: bool, exe: Option<&str>) -> (params: Option<String>)
    ensures
        params is None <==> enable && exe is None,
        params matches Some(p) ==> p@ == if enable {
            create_params(exe.unwrap()@)
        } else {
            delete_params()
        },
{
    if enable {
        match exe {
            None => None,
            Some(path) => {
                let mut params: String = "/Create /TN \"".to_string();
                params.append(TASK_NAME);
                params.append("\" /TR \"\\\"");
                params.append(path);
                params.append("\\\"\" /SC ONLOGON /RL HIGHEST /F");
                Some(params)
            },
        }
    } else {
        let mut params: String = "/Delete /TN \"".to_string();
        params.append(TASK_NAME);
        params.append("\" /F");
        Some(params)
    }
}

// ---- running the task manager ----

/// What the task manager is started with, each text closed by a NUL.
pub struct ElevatedLaunch {
    pub verb: Vec<u16>,
    pub file: Vec<u16>,
    pub params: Vec<u16>,
}

/// The start of the task manager with the rights of an administrator.
pub fn elevated_launch(params: &str) -> (launch: ElevatedLaunch)
    ensures
        launch.verb@ == crate::utf16::utf16_nul("runas"@),
        launch.file@ == crate::utf16::utf16_nul("schtasks.exe"@),
        launch.params@ == crate::utf16::utf16_nul(params@),
{
    ElevatedLaunch {
        verb: encode_utf16_nul("runas"),
        file: encode_utf16_nul("schtasks.exe"),
        params: encode_utf16_nul(params),
    }
}

/// Where a run of the task manager stands.
#[derive(Clone, Copy, PartialEq, Eq, Debug, Structural)]
pub enum RunStep {
    /// `ShellExecuteExW` is to be called.
    Launch,
    /// `WaitForSingleObject`, without a limit.
    Wait,
    /// `GetExitCodeProcess`.
    ExitCode,
    /// `CloseHandle` of the process.
    Close { succeeded: bool },
    Done { succeeded: bool },
}

/// What came back from a call of the run.
#[derive(Clone, Copy, PartialEq, Eq, Debug, Structural)]
pub enum RunReply {
    /// Whether the launch succeeded, and whether it gave a process.
    Launched { ok: bool, has_process: bool },
    /// Whether there is an exit code, and the code.
    ExitCode { got: bool, code: u32 },
    /// The call returned, and its result is not looked at.
    Returned,
}

/// The step after a reply. A reply to another call than the pending one changes nothing.
pub open spec fn run_next(step: RunStep, reply: RunReply) -> RunStep {
    match (step, reply) {
        (RunStep::Launch, RunReply::Launched { ok, has_process }) => if ok && has_process {
            RunStep::Wait
        } else {
            RunStep::Done { succeeded: false }
        },
        (RunStep::Wait, RunReply::Returned) => RunStep::ExitCode,
        (RunStep::ExitCode, RunReply::ExitCode { got, code }) => RunStep::Close {
            succeeded: got && code == 0,
        },
        (RunStep::Close { succeeded }, RunReply::Returned) => RunStep::Done { succeeded },
        _ => step,
    }
}

/// Takes a run of the task manager over one reply. It succeeds where the exit code is zero.
pub fn run_elevated_schtasks(step: RunStep, reply: RunReply) -> (next: RunStep)
    ensures
        next == run_next(step, reply),
{
    match (step, reply) {
        (RunStep::Launch, RunReply::Launched { ok, has_process }) => {
            if ok && has_process {
                RunStep::Wait
            } else {
                RunStep::Done { succeeded: false }
            }
        },
        (RunStep::Wait, RunReply::Returned) => RunStep::ExitCode,
        (RunStep::ExitCode, RunReply::ExitCode { got, code }) => RunStep::Close {
            succeeded: got && code == 0,
        },
        (RunStep::Close { succeeded }, RunReply::Returned) => RunStep::Done { succeeded },
        _ => step,
    }
}

/// The steps of a whole run, given the replies to the launch and to the question for the exit
/// code.
pub open spec fn run_steps(ok: bool, has_process: bool, got: bool, code: u32) -> Seq<RunStep> {
    let launched = run_next(RunStep::Launch, RunReply::Launched { ok, has_process });
    let waited = run_next(launched, RunReply::Returned);
    let asked = run_next(waited, RunReply::ExitCode { got, code });
    let closed = run_next(asked, RunReply::Returned);
    seq![RunStep::Launch, launched, waited, asked, closed]
}

/// A run succeeds exactly where a process was started and ended with code zero; and the handle
/// of the process is closed exactly where one was started.
pub proof fn law_run_closes_what_it_started(ok: bool, has_process: bool, got: bool, code: u32)
    ensures
        ({
            let steps = run_steps(ok, has_process, got, code);
            let succeeded = ok && has_process && got && code == 0;
            &&& steps.last() == (RunStep::Done { succeeded })
            &&& (ok && has_process) <==> steps.contains(RunStep::Close { succeeded })
            &&& !(ok && has_process) ==> forall|i: int|
                1 <= i < steps.len() ==> #[trigger] steps[i] == (RunStep::Done {
                    succeeded: false,
                })
        }),
{
    let steps = run_steps(ok, has_process, got, code);
    let succeeded = ok && has_process && got && code == 0;
    if ok && has_process {
        assert(steps[3] == (RunStep::Close { succeeded }));
    }
}

/// A process that was started is waited for, then asked for its exit code, then closed; where
/// none was started, none of this happens.
pub proof fn law_run_waits_before_it_asks(ok: bool, has_process: bool, got: bool, code: u32)
    ensures
        ({
            let steps = run_steps(ok, has_process, got, code);
            &&& steps.len() == 5
            &&& ok && has_process ==> steps == seq![
                RunStep::Launch,
                RunStep::Wait,
                RunStep::ExitCode,
                RunStep::Close { succeeded: got && code == 0 },
                RunStep::Done { succeeded: got && code == 0 },
            ]
            &&& !(ok && has_process) ==> steps[1] == (RunStep::Done { succeeded: false })
        }),
{
}

/// A reply to another call than the pending one changes nothing, and nothing changes a run that
/// is over.
pub proof fn law_unasked_reply_leaves_the_run(reply: RunReply, succeeded: bool)
    ensures
        reply !is Launched ==> run_next(RunStep::Launch, reply) == RunStep::Launch,
        reply !is Returned ==> run_next(RunStep::Wait, reply) == RunStep::Wait,
        reply !is ExitCode ==> run_next(RunStep::ExitCode, reply) == RunStep::ExitCode,
        reply !is Returned ==> run_next(RunStep::Close { succeeded }, reply) == (RunStep::Close {
            succeeded,
        }),
        run_next(RunStep::Done { succeeded }, reply) == (RunStep::Done { succeeded }),
{
}

/// The task is made to run the program at whatever path it lies, quoted within quotes, and the
/// name of the task that is made is the name of the task that is deleted.
pub proof fn law_task_runs_the_program_at_its_path(exe: Seq<char>)
    ensures
        create_params(exe) == "/Create /TN \"CapsLockSwitcherAutostart\" /TR \"\\\""@ + exe
            + "\\\"\" /SC ONLOGON /RL HIGHEST /F"@,
        delete_params() == "/Delete /TN \"CapsLockSwitcherAutostart\" /F"@,
{
    reveal_strlit("/Create /TN \"");
    reveal_strlit("CapsLockSwitcherAutostart");
    reveal_strlit("\" /TR \"\\\"");
    reveal_strlit("/Create /TN \"CapsLockSwitcherAutostart\" /TR \"\\\"");
    reveal_strlit("/Delete /TN \"");
    reveal_strlit("\" /F");
    reveal_strlit("/Delete /TN \"CapsLockSwitcherAutostart\" /F");
    assert("/Create /TN \""@ + TASK_NAME@ + "\" /TR \"\\\""@
        =~= "/Create /TN \"CapsLockSwitcherAutostart\" /TR \"\\\""@);
    assert(delete_params() =~= "/Delete /TN \"CapsLockSwitcherAutostart\" /F"@);
}

} // verus!
