//! Around one worker lifetime: admission of requests, startup, and the orderly end.

use vstd::prelude::*;

use crate::json::Json;
use crate::session::Lifecycle;
use crate::session::LifecycleView;
use crate::session::OutcomeView;
use crate::session::SessionOutcome;
use crate::text::join2;
use crate::time::Duration;
use crate::worker::StartError;
use crate::worker::StartErrorView;
use crate::worker::State;
use crate::worker::StateView;
use crate::worker::WorkerError;
use crate::worker::WorkerErrorView;
use crate::worker::WorkerInfo;
use crate::worker::WorkerInfoView;

verus! {

/// How long a killed worker is waited for at least, in milliseconds.
pub const MIN_KILL_WAIT_MS: u64 = 200;

/// Why a prediction is refused right away: no admission slot, or no live model.
pub open spec fn admission_fault(slot_taken: bool, state: StateView) -> Option<WorkerErrorView> {
    if !slot_taken {
        Some(WorkerErrorView::Overloaded)
    } else {
        match state {
            StateView::Ready => None,
            StateView::ShuttingDown => Some(WorkerErrorView::ShuttingDown),
            StateView::Failed(reason) => Some(WorkerErrorView::Unavailable(reason)),
            StateView::Starting => Some(
                WorkerErrorView::Unavailable("worker is still loading"@),
            ),
            StateView::Pending(reason) => Some(WorkerErrorView::Unavailable(reason)),
        }
    }
}

/// Whether a prediction goes to the worker; `slot_taken` says whether an admission slot was
/// free for it.
pub fn admission(slot_taken: bool, state: &State) -> (res: Result<(), WorkerError>)
    ensures
        match res {
            Ok(_) => admission_fault(slot_taken, state@) is None,
            Err(error) => admission_fault(slot_taken, state@) == Some(error@),
        },
{
    if !slot_taken {
        return Err(WorkerError::Overloaded);
    }
    match state {
        State::Ready => Ok(()),
        State::ShuttingDown => Err(WorkerError::ShuttingDown),
        State::Failed(reason) => Err(WorkerError::Unavailable(reason.clone())),
        State::Starting => Err(WorkerError::Unavailable("worker is still loading".to_owned())),
        State::Pending(reason) => Err(WorkerError::Unavailable(reason.clone())),
    }
}

/// A prediction is admitted exactly when a slot is free and the worker is ready.
pub proof fn lemma_admission_needs_a_ready_worker(slot_taken: bool, state: StateView)
    ensures
        admission_fault(slot_taken, state) is None <==> slot_taken && state is Ready,
{
}

/// The result of a prediction that was handed to the session; `None` where the session went
/// away without a reply.
pub fn prediction_result(reply: Option<Result<Json, WorkerError>>) -> (res: Result<
    Json,
    WorkerError,
>)
    ensures
        match reply {
            Some(result) => res == result,
            None => res matches Err(error) && error@ == WorkerErrorView::ShuttingDown,
        },
{
    match reply {
        Some(result) => result,
        None => Err(WorkerError::ShuttingDown),
    }
}

/// What became of the wait for the ready handshake.
#[derive(Debug)]
pub enum Handshake {
    /// It was settled.
    Settled(Result<WorkerInfo, StartError>),
    /// The supervisor went away without settling it.
    Dropped,
    /// The startup deadline passed first.
    TimedOut,
}

/// The mathematical reading of a startup result.
pub open spec fn start_view(result: Result<WorkerInfo, StartError>) -> Result<
    WorkerInfoView,
    StartErrorView,
> {
    match result {
        Ok(info) => Ok(info@),
        Err(error) => Err(error@),
    }
}

/// The result of the startup of a worker.
pub open spec fn handshake_result(
    handshake: Handshake,
    startup_timeout: Duration,
) -> Result<WorkerInfoView, StartErrorView> {
    match handshake {
        Handshake::Settled(result) => start_view(result),
        Handshake::Dropped => Err(
            StartErrorView::Failed("worker supervision task ended before readiness"@),
        ),
        Handshake::TimedOut => Err(StartErrorView::Timeout(startup_timeout)),
    }
}

/// The result of the startup of a worker. On an error the worker is to be shut down.
pub fn finish_startup(handshake: Handshake, startup_timeout: Duration) -> (res: Result<
    WorkerInfo,
    StartError,
>)
    ensures
        start_view(res) == handshake_result(handshake, startup_timeout),
{
    match handshake {
        Handshake::Settled(result) => result,
        Handshake::Dropped => Err(
            StartError::Failed("worker supervision task ended before readiness".to_owned()),
        ),
        Handshake::TimedOut => Err(StartError::Timeout(startup_timeout)),
    }
}

/// Whether a worker may be started in this state.
pub open spec fn may_start(state: StateView) -> bool {
    state is Starting || state is Pending
}

/// The lifecycle after the worker failed: the state says so unless the daemon is going away,
/// and nothing is known of the worker any more.
pub open spec fn failed_life(life: LifecycleView, reason: Seq<char>) -> LifecycleView {
    LifecycleView {
        state: if life.state is ShuttingDown {
            life.state
        } else {
            StateView::Failed(reason)
        },
        info: None,
        pid: None,
    }
}

/// The lifecycle after the worker process could not be started: the state says so.
pub open spec fn unspawned_life(life: LifecycleView, detail: Seq<char>) -> LifecycleView {
    LifecycleView {
        state: StateView::Failed(StartErrorView::Failed(detail).as_worker_error().text()),
        ..life
    }
}

/// The lifecycle from when the daemon is going away.
pub open spec fn leaving_life(life: LifecycleView) -> LifecycleView {
    LifecycleView { state: StateView::ShuttingDown, ..life }
}

impl Lifecycle {
    /// Whether a worker may be started.
    pub fn start_allowed(&self) -> (res: bool)
        ensures
            res == may_start(self@.state),
    {
        match &self.state {
            State::Starting | State::Pending(_) => true,
            _ => false,
        }
    }

    /// The worker process was started.
    pub fn started(&mut self, pid: Option<u32>)
        ensures
            final(self)@ == (LifecycleView { pid, ..old(self)@ }),
    {
        self.pid = pid;
    }

    /// The worker process could not be started. The result is for whoever waits for it.
    pub fn spawn_failed(&mut self, detail: String) -> (res: StartError)
        ensures
            res@ == StartErrorView::Failed(detail@),
            final(self)@ == unspawned_life(old(self)@, detail@),
    {
        let message = StartError::Failed(detail.clone()).into_worker_error().message();
        self.state = State::Failed(message);
        StartError::Failed(detail)
    }

    /// Stop admitting work: the daemon is going away.
    pub fn begin_shutdown(&mut self)
        ensures
            final(self)@ == leaving_life(old(self)@),
    {
        self.state = State::ShuttingDown;
    }

    /// Whether there is a worker process to kill.
    pub fn kill_target(&self) -> (res: Option<u32>)
        ensures
            res == self@.pid,
    {
        self.pid
    }

    /// Fail closed: mark the worker untrusted.
    pub fn mark_failed(&mut self, reason: &str)
        ensures
            final(self)@ == failed_life(old(self)@, reason@),
    {
        let leaving: bool = match &self.state {
            State::ShuttingDown => true,
            _ => false,
        };
        if !leaving {
            self.state = State::Failed(reason.to_owned());
        }
        self.info = None;
        self.pid = None;
    }

    /// The worker process was stopped and nothing is known of it any more.
    pub fn forget_worker(&mut self)
        ensures
            final(self)@ == (LifecycleView { info: None, pid: None, ..old(self)@ }),
    {
        self.info = None;
        self.pid = None;
    }
}

/// What is to be done at the end of a session before the worker process is reaped.
#[derive(Debug)]
pub struct BeforeReap {
    /// Kill the worker process first.
    pub kill: bool,
    /// Tell whoever still waits for the ready handshake.
    pub settle: Option<StartError>,
}

/// What is to be told before the worker process is reaped.
pub open spec fn early_settle(outcome: OutcomeView, ready_pending: bool) -> Option<
    StartErrorView,
> {
    if ready_pending && !(outcome is Restart) {
        Some(StartErrorView::Failed("worker stopped"@))
    } else {
        None
    }
}

/// The mathematical reading of an optional startup error.
pub open spec fn start_error_view(error: Option<StartError>) -> Option<StartErrorView> {
    match error {
        Some(error) => Some(error@),
        None => None,
    }
}

/// What is to be done at the end of a session before the worker process is reaped;
/// `ready_pending` says whether someone still waits for the ready handshake.
pub fn before_reap(outcome: &SessionOutcome, ready_pending: bool) -> (res: BeforeReap)
    ensures
        res.kill == (outcome@ is Kill),
        start_error_view(res.settle) == early_settle(outcome@, ready_pending),
{
    match outcome {
        SessionOutcome::Restart(_) => BeforeReap { kill: false, settle: None },
        SessionOutcome::Shutdown | SessionOutcome::Kill => {
            let kill: bool = match outcome {
                SessionOutcome::Kill => true,
                _ => false,
            };
            if ready_pending {
                BeforeReap {
                    kill,
                    settle: Some(StartError::Failed("worker stopped".to_owned())),
                }
            } else {
                BeforeReap { kill, settle: None }
            }
        },
    }
}

/// What is to be done at the end of a session after the worker process was reaped.
#[derive(Debug)]
pub struct AfterReap {
    /// Tell whoever still waits for the ready handshake.
    pub settle: Option<StartError>,
    /// Report this fatal fault, and fail every request that is queued with it.
    pub fatal: Option<String>,
}

/// The words for the end of a worker that was reaped, or could not be.
pub open spec fn reap_detail(reaped: Result<Seq<char>, Seq<char>>) -> Seq<char> {
    match reaped {
        Ok(status) => "worker "@ + status,
        Err(fault) => fault,
    }
}

/// The mathematical reading of how a worker was reaped.
pub open spec fn reaped_view(reaped: Result<String, String>) -> Result<Seq<char>, Seq<char>> {
    match reaped {
        Ok(status) => Ok(status@),
        Err(fault) => Err(fault@),
    }
}

/// The lifecycle after a session has ended and its worker was reaped.
pub open spec fn ended_life(
    life: LifecycleView,
    outcome: OutcomeView,
    reaped: Result<Seq<char>, Seq<char>>,
) -> LifecycleView {
    if outcome is Restart {
        failed_life(life, reap_detail(reaped))
    } else {
        LifecycleView { info: None, pid: None, ..life }
    }
}

/// What is to be told after the worker process was reaped.
pub open spec fn late_settle(
    outcome: OutcomeView,
    ready_pending: bool,
    reaped: Result<Seq<char>, Seq<char>>,
) -> Option<StartErrorView> {
    if ready_pending && outcome is Restart {
        Some(StartErrorView::Failed(reap_detail(reaped)))
    } else {
        None
    }
}

/// The fatal fault that a session ended with.
pub open spec fn fatal_fault(outcome: OutcomeView, reaped: Result<Seq<char>, Seq<char>>) -> Option<
    Seq<char>,
> {
    if outcome is Restart {
        Some(reap_detail(reaped))
    } else {
        None
    }
}

/// What is to be done at the end of a session after the worker process was reaped.
pub fn after_reap(
    life: &mut Lifecycle,
    outcome: &SessionOutcome,
    ready_pending: bool,
    reaped: Result<String, String>,
) -> (res: AfterReap)
    ensures
        final(life)@ == ended_life(old(life)@, outcome@, reaped_view(reaped)),
        start_error_view(res.settle) == late_settle(outcome@, ready_pending, reaped_view(reaped)),
        match res.fatal {
            Some(detail) => fatal_fault(outcome@, reaped_view(reaped)) == Some(detail@),
            None => fatal_fault(outcome@, reaped_view(reaped)) is None,
        },
{
    match outcome {
        SessionOutcome::Restart(_) => {
            let detail = match reaped {
                Ok(status) => join2("worker ", status.as_str()),
                Err(fault) => fault,
            };
            life.mark_failed(detail.as_str());
            let settle = if ready_pending {
                Some(StartError::Failed(detail.clone()))
            } else {
                None
            };
            AfterReap { settle, fatal: Some(detail) }
        },
        SessionOutcome::Shutdown | SessionOutcome::Kill => {
            life.forget_worker();
            AfterReap { settle: None, fatal: None }
        },
    }
}

/// The error for a request that was queued behind a worker that is lost.
pub fn drained_error(detail: &str) -> (res: WorkerError)
    ensures
        res@ == WorkerErrorView::WorkerFailed(detail@),
{
    WorkerError::WorkerFailed(detail.to_owned())
}

/// However a session ends, whoever still waits for the ready handshake is told exactly once,
/// and nothing is left that would pass for a live worker process.
pub proof fn lemma_every_end_is_told_once(
    life: LifecycleView,
    outcome: OutcomeView,
    ready_pending: bool,
    reaped: Result<Seq<char>, Seq<char>>,
)
    ensures
        ready_pending ==> (early_settle(outcome, ready_pending) is Some) != (late_settle(
            outcome,
            ready_pending,
            reaped,
        ) is Some),
        !ready_pending ==> early_settle(outcome, ready_pending) is None && late_settle(
            outcome,
            ready_pending,
            reaped,
        ) is None,
        ended_life(life, outcome, reaped).pid is None,
        ended_life(life, outcome, reaped).info is None,
        life.state is ShuttingDown ==> ended_life(life, outcome, reaped).state is ShuttingDown,
        outcome is Restart ==> admission_fault(
            true,
            ended_life(life, outcome, reaped).state,
        ) is Some,
{
}

/// What became of the wait for a worker process to exit.
#[derive(Debug)]
pub enum Waited {
    /// It exited with this status.
    Exited(String),
    /// It cannot be waited for.
    Failed(String),
    /// It did not exit in time.
    TimedOut,
}

/// What to do next about a worker process that was asked to exit.
#[derive(Debug)]
pub enum Reap {
    /// It is settled: the exit status, or why there is none.
    Done(Result<String, String>),
    /// Kill it and wait this long.
    KillAndWait(Duration),
}

/// What a wait says of how the worker process exited, if it is settled.
pub open spec fn exit_of(waited: Waited) -> Option<Result<Seq<char>, Seq<char>>> {
    match waited {
        Waited::Exited(status) => Some(Ok(status@)),
        Waited::Failed(fault) => Some(Err("cannot reap worker: "@ + fault@)),
        Waited::TimedOut => None,
    }
}

/// What to do about a worker process that was asked to exit and given the time `grace`.
pub fn after_terminate(waited: Waited, grace: Duration) -> (res: Reap)
    ensures
        match res {
            Reap::Done(exit) => exit_of(waited) == Some(reaped_view(exit)),
            Reap::KillAndWait(wait) => {
                &&& exit_of(waited) is None
                &&& wait.total_millis() == if grace.total_millis() < MIN_KILL_WAIT_MS {
                    MIN_KILL_WAIT_MS as nat
                } else {
                    grace.total_millis()
                }
            },
        },
{
    match waited {
        Waited::Exited(status) => Reap::Done(Ok(status)),
        Waited::Failed(fault) => Reap::Done(Err(join2("cannot reap worker: ", fault.as_str()))),
        Waited::TimedOut => Reap::KillAndWait(
            grace.max(Duration::from_millis(MIN_KILL_WAIT_MS)),
        ),
    }
}

/// How a worker process that was killed has ended.
pub fn after_kill(waited: Waited) -> (res: Result<String, String>)
    ensures
        match exit_of(waited) {
            Some(exit) => reaped_view(res) == exit,
            None => reaped_view(res) == Err::<Seq<char>, Seq<char>>(
                "worker did not exit after SIGKILL"@,
            ),
        },
{
    match waited {
        Waited::Exited(status) => Ok(status),
        Waited::Failed(fault) => Err(join2("cannot reap worker: ", fault.as_str())),
        Waited::TimedOut => Err("worker did not exit after SIGKILL".to_owned()),
    }
}

/// What there is to say of a worker program that cannot be started.
pub fn spawn_error(program: &str, fault: &str) -> (res: String)
    ensures
        res@ == "cannot start worker "@ + program@ + ": "@ + fault@,
{
    let start = join2("cannot start worker ", program);
    let middle = join2(start.as_str(), ": ");
    join2(middle.as_str(), fault)
}

/// A prediction that is refused right away is refused for what is the case: no slot is free, the
/// daemon is shutting down, the model is loading, or the worker is lost for a known reason.
pub proof fn lemma_admission_says_why(state: StateView, reason: Seq<char>)
    ensures
        admission_fault(false, state) == Some(WorkerErrorView::Overloaded),
        admission_fault(true, StateView::Ready) is None,
        admission_fault(true, StateView::ShuttingDown) == Some(WorkerErrorView::ShuttingDown),
        admission_fault(true, StateView::Failed(reason)) == Some(
            WorkerErrorView::Unavailable(reason),
        ),
        admission_fault(true, StateView::Pending(reason)) == Some(
            WorkerErrorView::Unavailable(reason),
        ),
        admission_fault(true, StateView::Starting) == Some(
            WorkerErrorView::Unavailable("worker is still loading"@),
        ),
{
}

/// The result of a startup is what the handshake was settled with; without one it is an error,
/// that of the deadline where the deadline passed.
pub proof fn lemma_startup_result(
    info: WorkerInfo,
    error: StartError,
    startup_timeout: Duration,
)
    ensures
        handshake_result(Handshake::Settled(Ok(info)), startup_timeout) == Ok::<
            WorkerInfoView,
            StartErrorView,
        >(info@),
        handshake_result(Handshake::Settled(Err(error)), startup_timeout) == Err::<
            WorkerInfoView,
            StartErrorView,
        >(error@),
        handshake_result(Handshake::Dropped, startup_timeout) matches Err(error)
            && error is Failed,
        handshake_result(Handshake::TimedOut, startup_timeout) == Err::<
            WorkerInfoView,
            StartErrorView,
        >(StartErrorView::Timeout(startup_timeout)),
{
}

/// A worker may be started unless it is ready, lost, or the daemon is going away.
pub proof fn lemma_when_a_worker_may_start(state: StateView)
    ensures
        may_start(state) <==> !(state is Ready || state is Failed || state is ShuttingDown),
{
}

/// A worker that failed is known to have, for the reason given, and nothing else of it, unless the
/// daemon is going away. One that could not be started is known to have failed to start. A daemon
/// that goes away keeps what it knows of its worker.
pub proof fn lemma_failures_are_known(life: LifecycleView, reason: Seq<char>)
    ensures
        failed_life(life, reason).info is None,
        failed_life(life, reason).pid is None,
        life.state is ShuttingDown ==> failed_life(life, reason).state is ShuttingDown,
        !(life.state is ShuttingDown) ==> failed_life(life, reason).state == StateView::Failed(
            reason,
        ),
        unspawned_life(life, reason).state == StateView::Failed(
            "worker failed to start: "@ + reason,
        ),
        unspawned_life(life, reason).info == life.info,
        unspawned_life(life, reason).pid == life.pid,
        leaving_life(life).state is ShuttingDown,
        leaving_life(life).info == life.info,
        leaving_life(life).pid == life.pid,
{
}

/// A session that ended with an untrusted worker is reported with how the worker was reaped: its
/// exit status, or why there is none. That is the state from then on, the fault that is reported,
/// and what whoever waits for the ready handshake is told. One that ended otherwise reports no
/// fault, and whoever waits is told that the worker stopped.
pub proof fn lemma_ends_are_reported(
    life: LifecycleView,
    outcome: OutcomeView,
    ready_pending: bool,
    reaped: Result<Seq<char>, Seq<char>>,
)
    ensures
        ({
            let ended = ended_life(life, outcome, reaped);
            let detail = match reaped {
                Ok(status) => "worker "@ + status,
                Err(fault) => fault,
            };
            &&& outcome is Restart ==> {
                &&& fatal_fault(outcome, reaped) == Some(detail)
                &&& ended.state == if life.state is ShuttingDown {
                    StateView::ShuttingDown
                } else {
                    StateView::Failed(detail)
                }
                &&& ready_pending ==> late_settle(outcome, ready_pending, reaped) == Some(
                    StartErrorView::Failed(detail),
                )
            }
            &&& !(outcome is Restart) ==> {
                &&& fatal_fault(outcome, reaped) is None
                &&& ended.state == life.state
                &&& ready_pending ==> early_settle(outcome, ready_pending) == Some(
                    StartErrorView::Failed("worker stopped"@),
                )
            }
        }),
{
}

/// What a wait for the end of a worker process gives is the exit status, or why it cannot be
/// waited for; a wait that runs out of time gives nothing. A killed worker is waited for at least
/// the fifth of a second.
pub proof fn lemma_exits_are_told(status: String, fault: String)
    ensures
        exit_of(Waited::Exited(status)) == Some(Ok::<Seq<char>, Seq<char>>(status@)),
        exit_of(Waited::Failed(fault)) == Some(
            Err::<Seq<char>, Seq<char>>("cannot reap worker: "@ + fault@),
        ),
        exit_of(Waited::TimedOut) is None,
        MIN_KILL_WAIT_MS * 5 == 1000,
{
}

} // verus!
