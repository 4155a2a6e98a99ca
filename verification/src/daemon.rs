//! The process as a whole: when it goes on serving, and with which code it exits.

use vstd::prelude::*;

use crate::api::Readiness;
use crate::api::ReadinessView;
use crate::time::Duration;
use crate::worker::StartError;
use crate::worker::StartErrorView;
use crate::FAIL_FAST_EXIT_CODE;

verus! {

/// Exit code for a command line that is refused.
pub const BAD_CONFIG_EXIT_CODE: u8 = 2;

/// Grace period between noticing a fatal worker fault and exiting, in milliseconds.
pub const FAIL_FAST_GRACE_MS: u64 = 250;

/// Grace period between noticing a fatal worker fault and exiting, long enough for the
/// in-flight response and the tracing output to reach the caller.
pub fn fail_fast_grace() -> (res: Duration)
    ensures
        res.total_millis() == FAIL_FAST_GRACE_MS,
{
    Duration::from_millis(FAIL_FAST_GRACE_MS)
}

/// How the daemon comes to its end.
#[derive(Debug, Clone, Copy, PartialEq, Eq, Structural)]
pub enum End {
    /// The command line was refused.
    BadConfig,
    /// The address cannot be bound.
    CannotBind,
    /// A signal came in while the worker was starting.
    Interrupted,
    /// The worker did not start.
    StartFailed,
    /// A signal came in while the daemon was serving.
    Signaled,
    /// The HTTP server stopped by itself, in order or not.
    ServerStopped { in_order: bool },
    /// The worker was lost and the daemon does not go on without it.
    WorkerLost,
}

impl End {
    /// Whether someone who supervises the daemon is to start it again.
    pub open spec fn wants_restart(self) -> bool {
        match self {
            End::CannotBind | End::StartFailed | End::WorkerLost => true,
            End::ServerStopped { in_order } => !in_order,
            End::BadConfig | End::Interrupted | End::Signaled => false,
        }
    }

    /// The exit code of the process.
    pub fn exit_code(self) -> (res: u8)
        ensures
            self.wants_restart() ==> res == FAIL_FAST_EXIT_CODE,
            self is BadConfig ==> res == BAD_CONFIG_EXIT_CODE,
            !self.wants_restart() && !(self is BadConfig) ==> res == 0,
    {
        match self {
            End::BadConfig => BAD_CONFIG_EXIT_CODE,
            End::CannotBind | End::StartFailed | End::WorkerLost => FAIL_FAST_EXIT_CODE as u8,
            End::ServerStopped { in_order } => if in_order {
                0
            } else {
                FAIL_FAST_EXIT_CODE as u8
            },
            End::Interrupted | End::Signaled => 0,
        }
    }
}

/// The readiness after the worker did not start.
pub open spec fn start_failure(error: StartErrorView) -> ReadinessView {
    match error {
        StartErrorView::Timeout(_) => ReadinessView::Failed("model load timed out"@),
        StartErrorView::Failed(detail) => ReadinessView::Failed(detail),
    }
}

/// The readiness after the worker did not start.
pub fn readiness_after_failed_start(error: StartError) -> (res: Readiness)
    ensures
        res@ == start_failure(error@),
{
    match error {
        StartError::Timeout(_) => Readiness::Failed("model load timed out".to_owned()),
        StartError::Failed(detail) => Readiness::Failed(detail),
    }
}

/// What to do about a fatal worker fault.
#[derive(Debug)]
pub struct FaultPlan {
    /// The readiness from now on.
    pub readiness: Readiness,
    /// Kill what is left of the worker, and exit after the grace period in this way.
    pub exit: Option<End>,
}

/// What to do about a fatal worker fault: fail closed, and exit for a supervisor to restart
/// unless that is switched off.
pub fn on_worker_fault(reason: &str, fail_fast: bool) -> (res: FaultPlan)
    ensures
        res.readiness@ == ReadinessView::Failed(reason@),
        res.exit == (if fail_fast {
            Some(End::WorkerLost)
        } else {
            None
        }),
{
    let exit: Option<End> = if fail_fast {
        Some(End::WorkerLost)
    } else {
        None
    };
    FaultPlan { readiness: Readiness::Failed(reason.to_owned()), exit }
}

/// The exit code asks to be started again exactly after a failure that a new start may mend, and
/// tells a refused command line from both that and an orderly end.
pub proof fn lemma_exit_codes(end: End)
    ensures
        end.wants_restart() <==> (end is CannotBind || end is StartFailed || end is WorkerLost
            || end == (End::ServerStopped { in_order: false })),
        FAIL_FAST_EXIT_CODE == 70,
        BAD_CONFIG_EXIT_CODE == 2,
        FAIL_FAST_GRACE_MS == 250,
{
}

/// A worker that did not start leaves the daemon failed, with what is known of why.
pub proof fn lemma_failed_start_is_known(detail: Seq<char>, limit: Duration)
    ensures
        start_failure(StartErrorView::Failed(detail)) == ReadinessView::Failed(detail),
        start_failure(StartErrorView::Timeout(limit)) == ReadinessView::Failed(
            "model load timed out"@,
        ),
{
}

} // verus!
