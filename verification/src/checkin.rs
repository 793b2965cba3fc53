//! The monitor check-in lifecycle around a wrapped child process.
//!
//! The caller performs the outside work (creating and updating the
//! check-in over the network, spawning the child); the functions here
//! decide, at each stage, what to request next and how the run ends.
use vstd::prelude::*;
use crate::error::CliError;
use crate::ids::{MonitorId, uuid_accepts};

verus! {

/// Lifecycle state reported for a check-in.
#[derive(Debug, PartialEq, Eq, Structural, Clone, Copy)]
pub enum CheckInStatus {
    /// Reported immediately before the wrapped process starts.
    InProgress,
    /// The wrapped process exited successfully.
    Success,
    /// The wrapped process exited with a failure.
    Error,
}

/// Request body for creating a check-in.
#[derive(Debug, PartialEq, Eq, Structural, Clone, Copy)]
pub struct CreateCheckIn {
    pub status: CheckInStatus,
}

/// Request body for the single update made after the process exits.
#[derive(Debug, PartialEq, Eq, Structural, Clone, Copy)]
pub struct UpdateCheckIn {
    pub status: Option<CheckInStatus>,
    pub duration: Option<u64>,
}

/// What the remote service answered when the check-in was created.
pub enum CheckInOutcome {
    /// The check-in exists; its identity was assigned remotely.
    Created { checkin_id: String },
    /// Creation failed; the transport error, rendered for the user.
    Failed { message: String },
}

/// How the wrapped child process ended: a success flag and, when the
/// process exited normally, its numeric exit code.
#[derive(Debug, PartialEq, Eq, Structural, Clone, Copy)]
pub struct ExitInfo {
    pub success: bool,
    pub code: Option<i32>,
}

/// How a whole `monitors run` invocation ends.
pub enum RunOutcome {
    /// The child exited successfully; so does this command.
    Success,
    /// The child failed; exit with its code, printing nothing more,
    /// since the child already produced its own diagnostics.
    QuietExit { code: i32 },
    /// Check-in creation failed and failures are not allowed: the
    /// underlying error is surfaced to the user.
    FatalCheckIn { message: String },
}

/// A run outcome with the failure message abstracted away.
pub enum Verdict {
    Succeed,
    Quiet { code: i32 },
    Fatal,
}

pub open spec fn verdict_of(o: RunOutcome) -> Verdict {
    match o {
        RunOutcome::Success => Verdict::Succeed,
        RunOutcome::QuietExit { code } => Verdict::Quiet { code },
        RunOutcome::FatalCheckIn { .. } => Verdict::Fatal,
    }
}

/// The process exit code each verdict stands for: the child's own code
/// on a quiet failure, 1 for a surfaced error, 0 on success.
pub open spec fn spec_verdict_exit_code(v: Verdict) -> int {
    match v {
        Verdict::Succeed => 0,
        Verdict::Quiet { code } => code as int,
        Verdict::Fatal => 1,
    }
}

/// The classification rule for a finished run: a failed check-in
/// creation is fatal unless failures are allowed; otherwise a
/// non-success exit is propagated quietly, with 1 standing in when the
/// child left no code (killed by a signal).
pub open spec fn spec_verdict(
    created: bool,
    allow_failure: bool,
    success: bool,
    code: Option<i32>,
) -> Verdict {
    if !created && !allow_failure {
        Verdict::Fatal
    } else if !success {
        Verdict::Quiet { code: if code is Some { code->0 } else { 1i32 } }
    } else {
        Verdict::Succeed
    }
}

/// Milliseconds of wall-clock time: seconds times 1000 plus the
/// millisecond remainder, truncated, never rounded.
pub open spec fn spec_duration_millis(secs: u64, subsec_millis: u32) -> int {
    secs * 1000 + subsec_millis
}

/// Wall-clock duration of the wrapped process in whole milliseconds.
pub fn duration_millis(secs: u64, subsec_millis: u32) -> (r: u64)
    requires
        subsec_millis < 1000,
        spec_duration_millis(secs, subsec_millis) <= u64::MAX,
    ensures
        r == spec_duration_millis(secs, subsec_millis),
{
    secs * 1000 + subsec_millis as u64
}

/// Begin a `monitors run`: validate the monitor identifier and, when it
/// is valid, hand back the one check-in creation request of the run,
/// with status InProgress. An invalid identifier fails here, before any
/// network call or process spawn.
pub fn start_run(monitor_id: &str) -> (r: Result<(MonitorId, CreateCheckIn), CliError>)
    ensures
        r is Ok <==> uuid_accepts(monitor_id@),
        r matches Ok((m, c)) ==> m@ == monitor_id@ && m.wf() && c.status == CheckInStatus::InProgress,
        r matches Err(e) ==> e == CliError::InvalidMonitorId,
{
    let m = MonitorId::parse(monitor_id)?;
    Ok((m, CreateCheckIn { status: CheckInStatus::InProgress }))
}

/// Finish a `monitors run` after the child has exited. Returns the one
/// check-in update of the run — owed exactly when creation succeeded,
/// carrying the terminal status and the measured duration — and the
/// final outcome under the classification rule.
pub fn finish_run(
    checkin: CheckInOutcome,
    allow_failure: bool,
    exit: &ExitInfo,
    duration_ms: u64,
) -> (r: (Option<UpdateCheckIn>, RunOutcome))
    ensures
        r.0 is Some <==> checkin is Created,
        r.0 matches Some(u) ==> u.status == Some(
            if exit.success { CheckInStatus::Success } else { CheckInStatus::Error },
        ) && u.duration == Some(duration_ms),
        verdict_of(r.1) == spec_verdict(checkin is Created, allow_failure, exit.success, exit.code),
        r.1 matches RunOutcome::FatalCheckIn { message } ==> checkin matches CheckInOutcome::Failed {
            message: m,
        } && message@ == m@,
{
    let update = match &checkin {
        CheckInOutcome::Created { checkin_id: _ } => Some(
            UpdateCheckIn {
                status: Some(
                    if exit.success {
                        CheckInStatus::Success
                    } else {
                        CheckInStatus::Error
                    },
                ),
                duration: Some(duration_ms),
            },
        ),
        CheckInOutcome::Failed { message: _ } => None,
    };
    let outcome = match checkin {
        CheckInOutcome::Failed { message } if !allow_failure => RunOutcome::FatalCheckIn {
            message,
        },
        _ => {
            if !exit.success {
                RunOutcome::QuietExit {
                    code: match exit.code {
                        Some(c) => c,
                        None => 1,
                    },
                }
            } else {
                RunOutcome::Success
            }
        },
    };
    (update, outcome)
}

impl RunOutcome {
    /// The process exit code this outcome stands for.
    pub fn exit_code(&self) -> (r: i32)
        ensures
            r == spec_verdict_exit_code(verdict_of(*self)),
    {
        match self {
            RunOutcome::Success => 0,
            RunOutcome::QuietExit { code } => *code,
            RunOutcome::FatalCheckIn { .. } => 1,
        }
    }
}

/// When the child runs to completion successfully and check-in
/// reporting does not abort the run (it was created, or failures are
/// allowed), the final exit code is the child's own: zero.
pub proof fn lemma_success_propagates_child_code(created: bool, allow_failure: bool, code: Option<i32>)
    requires
        created || allow_failure,
    ensures
        spec_verdict_exit_code(spec_verdict(created, allow_failure, true, code)) == 0,
{
}

/// When check-in creation fails and failures are not allowed, the run
/// is fatal: the creation error is surfaced and the exit code is not
/// the child's, whatever the child did.
pub proof fn lemma_checkin_failure_is_fatal(allow_failure: bool, success: bool, code: Option<i32>)
    requires
        !allow_failure,
    ensures
        spec_verdict(false, allow_failure, success, code) is Fatal,
        spec_verdict_exit_code(spec_verdict(false, allow_failure, success, code)) == 1,
{
}

/// When check-in creation fails but failures are allowed, the final
/// exit code equals exactly the child's: its own code on a normal
/// exit, 0 on success, 1 when no code is available.
pub proof fn lemma_allow_failure_keeps_child_code(success: bool, code: Option<i32>)
    ensures
        success ==> spec_verdict_exit_code(spec_verdict(false, true, success, code)) == 0,
        !success && code is Some ==> spec_verdict_exit_code(
            spec_verdict(false, true, success, code),
        ) == code->0,
        !success && code is None ==> spec_verdict_exit_code(
            spec_verdict(false, true, success, code),
        ) == 1,
{
}

} // verus!
