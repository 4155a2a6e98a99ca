//! One worker lifetime, as a machine that is told what happened and answers what to do.
//!
//! The protocol is strictly single-flight: one request is outstanding at a time, and a reply
//! must carry its id. Anything else invalidates the worker.

use vstd::prelude::*;
use vstd::utf8::decode_utf8;

use crate::codec::MAX_NESTING;
use crate::codec::parse_json;
use crate::codec::parsed;
use crate::codec::readable_within;
use crate::codec::rendered;
use crate::codec::RESERVED_NAME;
use crate::frame::encode_frame;
use crate::frame::frame_line;
use crate::frame::Frame;
use crate::frame::FrameView;
use crate::json::text_field;
use crate::json::Json;
use crate::json::JsonObject;
use crate::json::JsonView;
use crate::reply::parse_reply;
use crate::reply::reply_of;
use crate::reply::Reply;
use crate::text::decimal;
use crate::text::digits;
use crate::text::join2;
use crate::text::join3;
use crate::text::join5;
use crate::text::same_text;
use crate::time::Duration;
use crate::worker::carries_id;
use crate::worker::has_id;
use crate::worker::parse_ready;
use crate::worker::ready_fault;
use crate::worker::ready_info;
use crate::worker::StartError;
use crate::worker::StartErrorView;
use crate::worker::State;
use crate::worker::StateView;
use crate::worker::WorkerError;
use crate::worker::WorkerErrorView;
use crate::worker::WorkerInfo;
use crate::worker::WorkerInfoView;

verus! {

/// How often a session that waits looks around, in milliseconds.
pub const POLL_INTERVAL_MS: u64 = 200;

/// What everyone who holds the worker sees of it.
#[derive(Debug)]
pub struct Lifecycle {
    pub state: State,
    pub info: Option<WorkerInfo>,
    pub pid: Option<u32>,
}

/// The mathematical reading of a [`Lifecycle`].
pub struct LifecycleView {
    pub state: StateView,
    pub info: Option<WorkerInfoView>,
    pub pid: Option<u32>,
}

/// The mathematical reading of optional metadata.
pub open spec fn info_view(info: Option<WorkerInfo>) -> Option<WorkerInfoView> {
    match info {
        Some(info) => Some(info@),
        None => None,
    }
}

impl View for Lifecycle {
    type V = LifecycleView;

    open spec fn view(&self) -> LifecycleView {
        LifecycleView { state: self.state@, info: info_view(self.info), pid: self.pid }
    }
}

/// Where a session stands with its one request.
#[derive(Debug, Clone, Copy, PartialEq, Eq, Structural)]
pub enum Phase {
    /// No request is outstanding.
    Idle,
    /// The request with this number is being written.
    Writing(u64),
    /// The request with this number was written and is not answered.
    Waiting(u64),
    /// The session is over.
    Ended,
}

/// The limits that a session enforces.
#[derive(Debug, Clone, Copy, PartialEq, Eq, Structural)]
pub struct Limits {
    pub max_response_bytes: usize,
    pub startup_timeout: Duration,
    pub inference_timeout: Duration,
}

/// One worker lifetime.
#[derive(Debug, Clone, Copy, PartialEq, Eq, Structural)]
pub struct Session {
    /// Whether someone still waits for the ready handshake.
    pub ready_pending: bool,
    pub phase: Phase,
    /// The number of the latest request.
    pub next_id: u64,
    pub limits: Limits,
}

/// Something that happened to a session.
#[derive(Debug)]
pub enum Event {
    /// Time to look around: whether whoever waited for the ready handshake went away, and
    /// whether the startup deadline has passed.
    Check { abandoned: bool, startup_expired: bool },
    /// A request with these parameters came in.
    Job(Json),
    /// No more requests can come in.
    JobsClosed,
    /// The worker process ended: its exit status, or why that cannot be told.
    ChildExited(Result<String, String>),
    /// The worker was read from: a frame, or why there is none.
    Read(Result<Frame, String>),
    /// Some time has passed: whether the caller of the outstanding request went away.
    Tick { caller_gone: bool },
    /// The deadline of the outstanding request has passed.
    Deadline,
    /// The outstanding request is written.
    Written,
    /// The outstanding request cannot be written.
    WriteFailed(String),
    /// The outstanding request was not written before its deadline.
    WriteTimedOut,
    /// The worker must go at once.
    ForceStop,
}

/// The mathematical reading of an [`Event`].
pub enum EventView {
    Check { abandoned: bool, startup_expired: bool },
    Job(JsonView),
    JobsClosed,
    ChildExited(Result<Seq<char>, Seq<char>>),
    Read(Result<FrameView, Seq<char>>),
    Tick { caller_gone: bool },
    Deadline,
    Written,
    WriteFailed(Seq<char>),
    WriteTimedOut,
    ForceStop,
}

impl View for Event {
    type V = EventView;

    open spec fn view(&self) -> EventView {
        match *self {
            Event::Check { abandoned, startup_expired } => EventView::Check {
                abandoned,
                startup_expired,
            },
            Event::Job(params) => EventView::Job(params@),
            Event::JobsClosed => EventView::JobsClosed,
            Event::ChildExited(Ok(status)) => EventView::ChildExited(Ok(status@)),
            Event::ChildExited(Err(fault)) => EventView::ChildExited(Err(fault@)),
            Event::Read(Ok(frame)) => EventView::Read(Ok(frame@)),
            Event::Read(Err(fault)) => EventView::Read(Err(fault@)),
            Event::Tick { caller_gone } => EventView::Tick { caller_gone },
            Event::Deadline => EventView::Deadline,
            Event::Written => EventView::Written,
            Event::WriteFailed(fault) => EventView::WriteFailed(fault@),
            Event::WriteTimedOut => EventView::WriteTimedOut,
            Event::ForceStop => EventView::ForceStop,
        }
    }
}

/// How a session ends.
#[derive(Debug)]
pub enum SessionOutcome {
    /// The worker is not to be trusted any more, for this reason.
    Restart(String),
    /// The daemon is going away.
    Shutdown,
    /// The worker must go at once.
    Kill,
}

/// The mathematical reading of a [`SessionOutcome`].
pub enum OutcomeView {
    Restart(Seq<char>),
    Shutdown,
    Kill,
}

impl View for SessionOutcome {
    type V = OutcomeView;

    open spec fn view(&self) -> OutcomeView {
        match *self {
            SessionOutcome::Restart(reason) => OutcomeView::Restart(reason@),
            SessionOutcome::Shutdown => OutcomeView::Shutdown,
            SessionOutcome::Kill => OutcomeView::Kill,
        }
    }
}

/// What a session wants done. Where it ends with a request outstanding and no reply, the
/// caller of the request is left without an answer.
#[derive(Debug)]
pub struct Actions {
    /// Tell whoever waits for the ready handshake.
    pub settle: Option<Result<WorkerInfo, StartError>>,
    /// Answer the caller of the outstanding request.
    pub reply: Option<Result<Json, WorkerError>>,
    /// Write these bytes to the worker, before the session ends if it does.
    pub write: Option<Vec<u8>>,
    /// End the session.
    pub outcome: Option<SessionOutcome>,
}

/// The mathematical reading of [`Actions`].
pub struct ActionsView {
    pub settle: Option<Result<WorkerInfoView, StartErrorView>>,
    pub reply: Option<Result<JsonView, WorkerErrorView>>,
    pub write: Option<Seq<u8>>,
    pub outcome: Option<OutcomeView>,
}

/// The mathematical reading of a startup result.
pub open spec fn settle_view(settle: Option<Result<WorkerInfo, StartError>>) -> Option<
    Result<WorkerInfoView, StartErrorView>,
> {
    match settle {
        Some(Ok(info)) => Some(Ok(info@)),
        Some(Err(error)) => Some(Err(error@)),
        None => None,
    }
}

/// The mathematical reading of the answer to a request.
pub open spec fn reply_view(reply: Option<Result<Json, WorkerError>>) -> Option<
    Result<JsonView, WorkerErrorView>,
> {
    match reply {
        Some(Ok(result)) => Some(Ok(result@)),
        Some(Err(error)) => Some(Err(error@)),
        None => None,
    }
}

impl View for Actions {
    type V = ActionsView;

    open spec fn view(&self) -> ActionsView {
        ActionsView {
            settle: settle_view(self.settle),
            reply: reply_view(self.reply),
            write: match self.write {
                Some(bytes) => Some(bytes@),
                None => None,
            },
            outcome: match self.outcome {
                Some(outcome) => Some(outcome@),
                None => None,
            },
        }
    }
}

/// What an event does to a session.
pub struct StepView {
    pub session: Session,
    pub life: LifecycleView,
    pub actions: ActionsView,
}

/// Whether a request was taken in and has no answer.
pub open spec fn outstanding(session: Session) -> bool {
    session.phase is Writing || session.phase is Waiting
}

/// Whether a session is in good order: the outstanding request is the latest one.
pub open spec fn well_formed(session: Session) -> bool {
    match session.phase {
        Phase::Writing(id) => id == session.next_id,
        Phase::Waiting(id) => id == session.next_id,
        _ => true,
    }
}

/// Whether an event can happen to a session as it stands.
pub open spec fn accepts(session: Session, event: EventView) -> bool {
    match event {
        EventView::Job(_) => session.phase is Idle && session.next_id < u64::MAX,
        EventView::JobsClosed | EventView::ChildExited(_) => session.phase is Idle,
        EventView::Check { .. } | EventView::Read(_) | EventView::Tick { .. } =>
            session.phase is Idle || session.phase is Waiting,
        EventView::Deadline => session.phase is Waiting,
        EventView::Written | EventView::WriteFailed(_) | EventView::WriteTimedOut =>
            session.phase is Writing,
        EventView::ForceStop => !(session.phase is Ended),
    }
}

/// Nothing to do.
pub open spec fn no_actions() -> ActionsView {
    ActionsView { settle: None, reply: None, write: None, outcome: None }
}

/// Nothing changes.
pub open spec fn carry_on(session: Session, life: LifecycleView) -> StepView {
    StepView { session, life, actions: no_actions() }
}

/// The frame that asks the worker to exit.
pub open spec fn shutdown_tree() -> JsonView {
    JsonView::Object(
        Map::empty().insert("id"@, JsonView::Null).insert(
            "method"@,
            JsonView::Text("shutdown"@),
        ),
    )
}

/// The session ends because the daemon goes away. A worker that is ready and has no request is
/// asked to exit, with the given line.
pub open spec fn stop_with(
    session: Session,
    life: LifecycleView,
    line: Result<Seq<u8>, Seq<char>>,
) -> StepView {
    StepView {
        session: Session { phase: Phase::Ended, ..session },
        life,
        actions: ActionsView {
            write: match line {
                Ok(line) => if session.phase is Idle && !session.ready_pending {
                    Some(line)
                } else {
                    None
                },
                Err(_) => None,
            },
            outcome: Some(OutcomeView::Shutdown),
            ..no_actions()
        },
    }
}

/// The session ends because the daemon goes away.
pub open spec fn stop(session: Session, life: LifecycleView) -> StepView {
    stop_with(session, life, Ok(frame_line(shutdown_tree())))
}

/// The state after a worker was found untrustworthy for the given reason: failed, unless it
/// already is or the daemon goes away.
pub open spec fn published(state: StateView, reason: Seq<char>) -> StateView {
    match state {
        StateView::Failed(_) | StateView::ShuttingDown => state,
        _ => StateView::Failed(reason),
    }
}

/// The session ends because the worker is not to be trusted any more.
pub open spec fn restart(
    session: Session,
    life: LifecycleView,
    reason: Seq<char>,
    reply: Option<WorkerErrorView>,
) -> StepView {
    StepView {
        session: Session { phase: Phase::Ended, ..session },
        life: LifecycleView { state: published(life.state, reason), ..life },
        actions: ActionsView {
            reply: match reply {
                Some(error) => Some(Err(error)),
                None => None,
            },
            outcome: Some(OutcomeView::Restart(reason)),
            ..no_actions()
        },
    }
}

/// The same, and whoever waits for the ready handshake is told why it failed.
pub open spec fn restart_settled(
    session: Session,
    life: LifecycleView,
    reason: Seq<char>,
    error: StartErrorView,
) -> StepView {
    let step = restart(session, life, reason, None);
    if session.ready_pending {
        StepView {
            session: Session { ready_pending: false, ..step.session },
            actions: ActionsView { settle: Some(Err(error)), ..step.actions },
            ..step
        }
    } else {
        step
    }
}

/// A look around before anything else is done.
pub open spec fn check_step(
    session: Session,
    life: LifecycleView,
    abandoned: bool,
    startup_expired: bool,
) -> StepView {
    if (session.ready_pending && abandoned) || life.state is ShuttingDown {
        stop(session, life)
    } else if session.ready_pending && startup_expired {
        restart_settled(
            session,
            life,
            "worker did not become ready within "@ + digits(
                session.limits.startup_timeout.whole_secs() as nat,
            ) + "s"@,
            StartErrorView::Timeout(session.limits.startup_timeout),
        )
    } else {
        carry_on(session, life)
    }
}

/// The frame that asks the worker for a prediction.
pub open spec fn request_tree(id: nat, params: JsonView) -> JsonView {
    JsonView::Object(
        Map::empty().insert("id"@, JsonView::Text(digits(id))).insert(
            "method"@,
            JsonView::Text("predict"@),
        ).insert("params"@, params),
    )
}

/// A request is taken in; its frame is at hand, or it cannot be made.
pub open spec fn request_step(
    session: Session,
    life: LifecycleView,
    line: Result<Seq<u8>, Seq<char>>,
) -> StepView {
    let id = (session.next_id + 1) as u64;
    match line {
        Ok(line) => StepView {
            session: Session { next_id: id, phase: Phase::Writing(id), ..session },
            life,
            actions: ActionsView { write: Some(line), ..no_actions() },
        },
        Err(fault) => restart(
            Session { next_id: id, ..session },
            life,
            "cannot write to worker: "@ + fault,
            Some(WorkerErrorView::WorkerFailed("worker write failed"@)),
        ),
    }
}

/// A request comes in.
pub open spec fn job_step(session: Session, life: LifecycleView, params: JsonView) -> StepView {
    if life.state is ShuttingDown {
        let step = stop(session, life);
        StepView {
            actions: ActionsView {
                reply: Some(Err(WorkerErrorView::ShuttingDown)),
                ..step.actions
            },
            ..step
        }
    } else {
        request_step(
            session,
            life,
            Ok(frame_line(request_tree((session.next_id + 1) as nat, params))),
        )
    }
}

/// The state after the worker has announced that it is ready: ready, unless the daemon is going
/// away.
pub open spec fn announced(state: StateView) -> StateView {
    if state is ShuttingDown {
        state
    } else {
        StateView::Ready
    }
}

/// A frame comes in that has to be the ready frame.
pub open spec fn ready_step(session: Session, life: LifecycleView, tree: JsonView) -> StepView {
    match ready_fault(tree) {
        None => StepView {
            session: Session { ready_pending: false, ..session },
            life: LifecycleView {
                state: announced(life.state),
                info: Some(ready_info(tree)),
                ..life
            },
            actions: ActionsView { settle: Some(Ok(ready_info(tree))), ..no_actions() },
        },
        Some(fault) => restart(session, life, fault, None),
    }
}

/// A line comes in while no request is outstanding: a JSON value, or why it is none.
pub open spec fn idle_value_step(
    session: Session,
    life: LifecycleView,
    value: Result<JsonView, Seq<char>>,
) -> StepView {
    if !session.ready_pending {
        restart(session, life, "unsolicited worker output"@, None)
    } else {
        match value {
            Err(fault) => restart(session, life, "worker sent invalid JSON: "@ + fault, None),
            Ok(tree) => if has_id(tree) {
                restart(
                    session,
                    life,
                    "worker replied although no request was outstanding"@,
                    None,
                )
            } else {
                ready_step(session, life, tree)
            },
        }
    }
}

/// The words for a reply with the wrong id.
pub open spec fn id_mismatch(got: Seq<char>, id: nat) -> Seq<char> {
    "response id "@ + got + " does not match request id "@ + digits(id)
}

/// A frame comes in that has to be the reply to request `id`.
pub open spec fn reply_step(
    session: Session,
    life: LifecycleView,
    id: nat,
    tree: JsonView,
) -> StepView {
    match reply_of(tree) {
        Err(fault) => restart(session, life, fault, Some(WorkerErrorView::WorkerFailed(fault))),
        Ok(reply) => if reply.id != digits(id) {
            restart(
                session,
                life,
                "worker "@ + id_mismatch(reply.id, id),
                Some(WorkerErrorView::WorkerFailed(id_mismatch(reply.id, id))),
            )
        } else if reply.body.is_fatal() {
            let step = restart(session, life, "worker reported a fatal error"@, None);
            StepView {
                actions: ActionsView { reply: Some(reply.body.as_result()), ..step.actions },
                ..step
            }
        } else {
            StepView {
                session: Session { phase: Phase::Idle, ..session },
                life,
                actions: ActionsView { reply: Some(reply.body.as_result()), ..no_actions() },
            }
        },
    }
}

/// A line comes in while request `id` is outstanding: a JSON value, or why it is none.
pub open spec fn waiting_value_step(
    session: Session,
    life: LifecycleView,
    id: nat,
    value: Result<JsonView, Seq<char>>,
) -> StepView {
    match value {
        Err(fault) => restart(
            session,
            life,
            "malformed worker frame: "@ + fault,
            Some(WorkerErrorView::WorkerFailed("worker sent invalid JSON: "@ + fault)),
        ),
        Ok(tree) => if session.ready_pending && text_field(tree, "id"@) is None {
            ready_step(session, life, tree)
        } else {
            reply_step(session, life, id, tree)
        },
    }
}

/// A line comes in: a JSON value, or why it is none.
pub open spec fn value_step(
    session: Session,
    life: LifecycleView,
    value: Result<JsonView, Seq<char>>,
) -> StepView {
    match session.phase {
        Phase::Waiting(id) => waiting_value_step(session, life, id as nat, value),
        _ => idle_value_step(session, life, value),
    }
}

/// What the caller of the outstanding request is told, if there is one.
pub open spec fn if_waiting(session: Session, error: WorkerErrorView) -> Option<WorkerErrorView> {
    if session.phase is Waiting {
        Some(error)
    } else {
        None
    }
}

/// The worker is read from.
pub open spec fn frame_step(
    session: Session,
    life: LifecycleView,
    frame: Result<FrameView, Seq<char>>,
) -> StepView {
    match frame {
        Ok(FrameView::Line(text)) => value_step(session, life, parsed(text)),
        Ok(FrameView::Eof) => if session.phase is Waiting {
            restart(
                session,
                life,
                "worker closed stdout (EOF)"@,
                Some(WorkerErrorView::WorkerFailed("worker closed its output stream"@)),
            )
        } else {
            restart_settled(
                session,
                life,
                "worker closed stdout (EOF)"@,
                StartErrorView::Failed("worker closed stdout (EOF)"@),
            )
        },
        Ok(FrameView::Oversized(seen)) => restart(
            session,
            life,
            "worker response exceeded "@ + digits(session.limits.max_response_bytes as nat)
                + " bytes (at least "@ + digits(seen) + " bytes read)"@,
            if_waiting(
                session,
                WorkerErrorView::OversizedResponse(session.limits.max_response_bytes),
            ),
        ),
        Err(fault) => restart(
            session,
            life,
            "worker read error: "@ + fault,
            if_waiting(session, WorkerErrorView::WorkerFailed("worker read error: "@ + fault)),
        ),
    }
}

/// The words for the end of the worker process.
pub open spec fn exit_text(exit: Result<Seq<char>, Seq<char>>) -> Seq<char> {
    match exit {
        Ok(status) => "worker exited with "@ + status,
        Err(fault) => "cannot wait on worker: "@ + fault,
    }
}

/// What an event does to a session.
pub open spec fn transition(session: Session, life: LifecycleView, event: EventView) -> StepView {
    match event {
        EventView::Check { abandoned, startup_expired } => check_step(
            session,
            life,
            abandoned,
            startup_expired,
        ),
        EventView::Job(params) => job_step(session, life, params),
        EventView::JobsClosed => stop(session, life),
        EventView::ChildExited(exit) => restart_settled(
            session,
            life,
            exit_text(exit),
            StartErrorView::Failed(exit_text(exit)),
        ),
        EventView::Read(frame) => frame_step(session, life, frame),
        EventView::Tick { caller_gone } => match session.phase {
            Phase::Waiting(id) => if life.state is ShuttingDown {
                stop(session, life)
            } else if caller_gone {
                restart(
                    session,
                    life,
                    "request "@ + digits(id as nat) + " was canceled by the caller"@,
                    None,
                )
            } else {
                carry_on(session, life)
            },
            _ => carry_on(session, life),
        },
        EventView::Deadline => restart(
            session,
            life,
            "worker did not answer within "@ + digits(
                session.limits.inference_timeout.whole_secs() as nat,
            ) + "s"@,
            Some(WorkerErrorView::InferenceTimeout(session.limits.inference_timeout)),
        ),
        EventView::Written => StepView {
            session: Session { phase: Phase::Waiting(session.next_id), ..session },
            life,
            actions: no_actions(),
        },
        EventView::WriteFailed(fault) => restart(
            session,
            life,
            "cannot write to worker: "@ + fault,
            Some(WorkerErrorView::WorkerFailed("worker write failed"@)),
        ),
        EventView::WriteTimedOut => restart(
            session,
            life,
            "worker input deadline exceeded"@,
            Some(WorkerErrorView::InferenceTimeout(session.limits.inference_timeout)),
        ),
        EventView::ForceStop => StepView {
            session: Session { phase: Phase::Ended, ..session },
            life,
            actions: ActionsView { outcome: Some(OutcomeView::Kill), ..no_actions() },
        },
    }
}

/// The session, the lifecycle and the actions after a step.
pub open spec fn stepped(session: Session, life: Lifecycle, actions: Actions) -> StepView {
    StepView { session, life: life@, actions: actions@ }
}

/// The mathematical reading of an optional error.
pub open spec fn error_view(error: Option<WorkerError>) -> Option<WorkerErrorView> {
    match error {
        Some(error) => Some(error@),
        None => None,
    }
}

/// The mathematical reading of a line that was read as JSON.
pub open spec fn value_view(value: Result<Json, String>) -> Result<JsonView, Seq<char>> {
    match value {
        Ok(json) => Ok(json@),
        Err(fault) => Err(fault@),
    }
}

/// The mathematical reading of a line that is to be written.
pub open spec fn line_view(line: Result<Vec<u8>, String>) -> Result<Seq<u8>, Seq<char>> {
    match line {
        Ok(bytes) => Ok(bytes@),
        Err(fault) => Err(fault@),
    }
}

/// The mathematical reading of a frame that was read.
pub open spec fn frame_view(frame: Result<Frame, String>) -> Result<FrameView, Seq<char>> {
    match frame {
        Ok(frame) => Ok(frame@),
        Err(fault) => Err(fault@),
    }
}

impl Actions {
    fn none() -> (res: Actions)
        ensures
            res@ == no_actions(),
    {
        Actions { settle: None, reply: None, write: None, outcome: None }
    }
}

impl Lifecycle {
    /// A worker that is yet to be started.
    pub fn new() -> (res: Self)
        ensures
            res@ == (LifecycleView { state: StateView::Starting, info: None, pid: None }),
    {
        Lifecycle { state: State::Starting, info: None, pid: None }
    }

    /// Makes known that the worker was found untrustworthy.
    pub fn publish(&mut self, reason: &str)
        ensures
            final(self)@ == (LifecycleView {
                state: published(old(self)@.state, reason@),
                ..old(self)@
            }),
    {
        let settled: bool = match &self.state {
            State::Failed(_) | State::ShuttingDown => true,
            _ => false,
        };
        if !settled {
            self.state = State::Failed(reason.to_owned());
        }
    }

    fn is_shutting_down(&self) -> (res: bool)
        ensures
            res == (self@.state is ShuttingDown),
    {
        match &self.state {
            State::ShuttingDown => true,
            _ => false,
        }
    }
}

/// A request for a prediction is an object of exactly three fields: the decimal text of its
/// number, the method `predict`, and the parameters as they came in. It reads back from its
/// text whenever its parameters do with one level less of nesting.
pub proof fn lemma_request_frame_says_it_all(id: nat, params: JsonView)
    ensures
        request_tree(id, params) matches JsonView::Object(fields) && {
            &&& fields.dom() == set!["id"@, "method"@, "params"@]
            &&& fields["id"@] == JsonView::Text(digits(id))
            &&& fields["method"@] == JsonView::Text("predict"@)
            &&& fields["params"@] == params
        },
        readable_within(params, (MAX_NESTING - 1) as nat) ==> readable_within(
            request_tree(id, params),
            MAX_NESTING as nat,
        ),
{
    reveal_strlit("id");
    reveal_strlit("method");
    reveal_strlit("params");
    reveal_strlit("$serde_json::private::RawValue");
    assert("id"@.len() == 2 && "method"@.len() == 6 && "params"@.len() == 6);
    assert("method"@[0] == 'm' && "params"@[0] == 'p');
    assert(RESERVED_NAME@.len() > 6);
    let fields = request_tree(id, params)->Object_0;
    assert(fields.dom() =~= set!["id"@, "method"@, "params"@]);
    if readable_within(params, (MAX_NESTING - 1) as nat) {
        assert forall|key: Seq<char>| fields.contains_key(key) implies readable_within(
            #[trigger] fields[key],
            (MAX_NESTING - 1) as nat,
        ) by {
            assert(key == "id"@ || key == "method"@ || key == "params"@);
        }
    }
}

/// The frame that asks the worker to exit has the id `null` and the method `shutdown`, and
/// nothing else.
pub proof fn lemma_shutdown_frame_asks_to_exit()
    ensures
        shutdown_tree() matches JsonView::Object(fields) && {
            &&& fields.dom() == set!["id"@, "method"@]
            &&& fields["id"@] is Null
            &&& fields["method"@] == JsonView::Text("shutdown"@)
        },
        readable_within(shutdown_tree(), MAX_NESTING as nat),
{
    reveal_strlit("id");
    reveal_strlit("method");
    reveal_strlit("$serde_json::private::RawValue");
    assert("id"@.len() == 2 && "method"@.len() == 6);
    assert(RESERVED_NAME@.len() > 6);
    let fields = shutdown_tree()->Object_0;
    assert(fields.dom() =~= set!["id"@, "method"@]);
    assert forall|key: Seq<char>| fields.contains_key(key) implies readable_within(
        #[trigger] fields[key],
        (MAX_NESTING - 1) as nat,
    ) by {
        assert(key == "id"@ || key == "method"@);
    }
}

/// The frame that asks the worker for a prediction.
pub fn request_frame(id: u64, params: Json) -> (res: Json)
    ensures
        res@ == request_tree(id as nat, params@),
        res@ matches JsonView::Object(fields) && {
            &&& fields.dom() == set!["id"@, "method"@, "params"@]
            &&& fields["id"@] == JsonView::Text(digits(id as nat))
            &&& fields["method"@] == JsonView::Text("predict"@)
            &&& fields["params"@] == params@
        },
{
    proof {
        lemma_request_frame_says_it_all(id as nat, params@);
    }
    let mut object = JsonObject::new();
    object.insert("id".to_owned(), Json::Text(decimal(id)));
    object.insert("method".to_owned(), Json::text("predict"));
    object.insert("params".to_owned(), params);
    Json::Object(object)
}

/// The frame that asks the worker to exit.
pub fn shutdown_frame() -> (res: Json)
    ensures
        res@ == shutdown_tree(),
        res@ matches JsonView::Object(fields) && {
            &&& fields.dom() == set!["id"@, "method"@]
            &&& fields["id"@] is Null
            &&& fields["method"@] == JsonView::Text("shutdown"@)
        },
{
    proof {
        lemma_shutdown_frame_asks_to_exit();
    }
    let mut object = JsonObject::new();
    object.insert("id".to_owned(), Json::Null);
    object.insert("method".to_owned(), Json::text("shutdown"));
    Json::Object(object)
}

fn mismatched_id(got: &str, id: u64) -> (res: String)
    ensures
        res@ == id_mismatch(got@, id as nat),
{
    let expected = decimal(id);
    let start = join3("response id ", got, " does not match request id ");
    join2(start.as_str(), expected.as_str())
}

impl Session {
    /// The lifetime of a worker that was just started.
    pub fn new(limits: Limits) -> (res: Self)
        ensures
            res == (Session { ready_pending: true, phase: Phase::Idle, next_id: 0, limits }),
            well_formed(res),
    {
        Session { ready_pending: true, phase: Phase::Idle, next_id: 0, limits }
    }

    /// Whether an event can happen to the session as it stands.
    pub fn can_take(&self, event: &Event) -> (res: bool)
        ensures
            res == accepts(*self, event@),
    {
        match event {
            Event::Job(_) => match self.phase {
                Phase::Idle => self.next_id < u64::MAX,
                _ => false,
            },
            Event::JobsClosed | Event::ChildExited(_) => match self.phase {
                Phase::Idle => true,
                _ => false,
            },
            Event::Check { .. } | Event::Read(_) | Event::Tick { .. } => match self.phase {
                Phase::Idle | Phase::Waiting(_) => true,
                _ => false,
            },
            Event::Deadline => match self.phase {
                Phase::Waiting(_) => true,
                _ => false,
            },
            Event::Written | Event::WriteFailed(_) | Event::WriteTimedOut => match self.phase {
                Phase::Writing(_) => true,
                _ => false,
            },
            Event::ForceStop => match self.phase {
                Phase::Ended => false,
                _ => true,
            },
        }
    }

    fn is_waiting(&self) -> (res: bool)
        ensures
            res == (self.phase is Waiting),
    {
        match self.phase {
            Phase::Waiting(_) => true,
            _ => false,
        }
    }

    /// Ends the session because the daemon goes away; the line that asks the worker to exit is
    /// at hand, or cannot be made.
    pub fn stop_with(&mut self, life: &Lifecycle, line: Result<Vec<u8>, String>) -> (res: Actions)
        ensures
            stepped(*final(self), *life, res) == stop_with(*old(self), life@, line_view(line)),
    {
        let asked: bool = match self.phase {
            Phase::Idle => !self.ready_pending,
            _ => false,
        };
        self.phase = Phase::Ended;
        let write: Option<Vec<u8>> = match line {
            Ok(bytes) => if asked {
                Some(bytes)
            } else {
                None
            },
            Err(_) => None,
        };
        Actions { write, outcome: Some(SessionOutcome::Shutdown), ..Actions::none() }
    }

    fn stop(&mut self, life: &Lifecycle) -> (res: Actions)
        ensures
            stepped(*final(self), *life, res) == stop(*old(self), life@),
    {
        let line = encode_frame(&shutdown_frame());
        self.stop_with(life, line)
    }

    fn restart(&mut self, life: &mut Lifecycle, reason: String, reply: Option<WorkerError>) -> (res:
        Actions)
        ensures
            stepped(*final(self), *final(life), res) == restart(
                *old(self),
                old(life)@,
                reason@,
                error_view(reply),
            ),
    {
        self.phase = Phase::Ended;
        life.publish(reason.as_str());
        let reply: Option<Result<Json, WorkerError>> = match reply {
            Some(error) => Some(Err(error)),
            None => None,
        };
        Actions { reply, outcome: Some(SessionOutcome::Restart(reason)), ..Actions::none() }
    }

    fn restart_settled(&mut self, life: &mut Lifecycle, reason: String, error: StartError) -> (res:
        Actions)
        ensures
            stepped(*final(self), *final(life), res) == restart_settled(
                *old(self),
                old(life)@,
                reason@,
                error@,
            ),
    {
        let mut actions = self.restart(life, reason, None);
        if self.ready_pending {
            self.ready_pending = false;
            actions.settle = Some(Err(error));
        }
        actions
    }

    /// A look around before anything else is done: shutdown and the startup deadline.
    pub fn check(&mut self, life: &mut Lifecycle, abandoned: bool, startup_expired: bool) -> (res:
        Actions)
        ensures
            stepped(*final(self), *final(life), res) == check_step(
                *old(self),
                old(life)@,
                abandoned,
                startup_expired,
            ),
    {
        if (self.ready_pending && abandoned) || life.is_shutting_down() {
            return self.stop(life);
        }
        if self.ready_pending && startup_expired {
            let timeout = self.limits.startup_timeout;
            let reason = join3(
                "worker did not become ready within ",
                decimal(timeout.as_secs()).as_str(),
                "s",
            );
            return self.restart_settled(life, reason, StartError::Timeout(timeout));
        }
        Actions::none()
    }

    /// Takes in a request whose frame is at hand, or cannot be made.
    pub fn start_request(&mut self, life: &mut Lifecycle, line: Result<Vec<u8>, String>) -> (res:
        Actions)
        requires
            old(self).next_id < u64::MAX,
        ensures
            stepped(*final(self), *final(life), res) == request_step(
                *old(self),
                old(life)@,
                line_view(line),
            ),
    {
        self.next_id = self.next_id + 1;
        match line {
            Ok(bytes) => {
                self.phase = Phase::Writing(self.next_id);
                Actions { write: Some(bytes), ..Actions::none() }
            },
            Err(fault) => {
                let reason = join2("cannot write to worker: ", fault.as_str());
                let error = WorkerError::WorkerFailed("worker write failed".to_owned());
                self.restart(life, reason, Some(error))
            },
        }
    }

    fn take_job(&mut self, life: &mut Lifecycle, params: Json) -> (res: Actions)
        requires
            old(self).next_id < u64::MAX,
        ensures
            stepped(*final(self), *final(life), res) == job_step(
                *old(self),
                old(life)@,
                params@,
            ),
            !(old(life)@.state is ShuttingDown) && readable_within(
                params@,
                (MAX_NESTING - 1) as nat,
            ) ==> {
                &&& res@.write is Some
                &&& res@.write->0.len() > 0
                &&& res@.write->0.last() == 10
                &&& parsed(decode_utf8(res@.write->0.drop_last())) matches Ok(
                    JsonView::Object(fields),
                ) && {
                    &&& fields.dom() == set!["id"@, "method"@, "params"@]
                    &&& fields["id"@] == JsonView::Text(digits((old(self).next_id + 1) as nat))
                    &&& fields["method"@] == JsonView::Text("predict"@)
                    &&& fields["params"@] == params@
                }
            },
    {
        if life.is_shutting_down() {
            let mut actions = self.stop(life);
            actions.reply = Some(Err(WorkerError::ShuttingDown));
            return actions;
        }
        let frame = request_frame(self.next_id + 1, params);
        let line = encode_frame(&frame);
        proof {
            lemma_request_frame_says_it_all((self.next_id + 1) as nat, params@);
            assert(frame_line(frame@).drop_last() =~= rendered(frame@));
        }
        self.start_request(life, line)
    }

    fn take_ready(&mut self, life: &mut Lifecycle, value: &Json) -> (res: Actions)
        ensures
            stepped(*final(self), *final(life), res) == ready_step(
                *old(self),
                old(life)@,
                value@,
            ),
    {
        match parse_ready(value) {
            Ok(info) => {
                self.ready_pending = false;
                if !life.is_shutting_down() {
                    life.state = State::Ready;
                }
                life.info = Some(info.clone());
                Actions { settle: Some(Ok(info)), ..Actions::none() }
            },
            Err(fault) => self.restart(life, fault, None),
        }
    }

    fn take_reply(&mut self, life: &mut Lifecycle, id: u64, value: &Json) -> (res: Actions)
        ensures
            stepped(*final(self), *final(life), res) == reply_step(
                *old(self),
                old(life)@,
                id as nat,
                value@,
            ),
    {
        let parsed = match parse_reply(value) {
            Ok(parsed) => parsed,
            Err(fault) => {
                let error = WorkerError::WorkerFailed(fault.clone());
                return self.restart(life, fault, Some(error));
            },
        };
        let expected = decimal(id);
        if !same_text(parsed.id.as_str(), expected.as_str()) {
            let fault = mismatched_id(parsed.id.as_str(), id);
            let reason = join2("worker ", fault.as_str());
            return self.restart(life, reason, Some(WorkerError::WorkerFailed(fault)));
        }
        let fatal: bool = parsed.body.fatal();
        let result: Result<Json, WorkerError> = match parsed.body {
            Reply::Answer(result) => Ok(result),
            Reply::Refusal(body) => Err(body.into_worker_error()),
        };
        if fatal {
            let mut actions = self.restart(
                life,
                "worker reported a fatal error".to_owned(),
                None,
            );
            actions.reply = Some(result);
            actions
        } else {
            self.phase = Phase::Idle;
            Actions { reply: Some(result), ..Actions::none() }
        }
    }

    /// Takes in a line from the worker: a JSON value, or why it is none.
    pub fn take_value(&mut self, life: &mut Lifecycle, value: Result<Json, String>) -> (res: Actions)
        ensures
            stepped(*final(self), *final(life), res) == value_step(
                *old(self),
                old(life)@,
                value_view(value),
            ),
    {
        match self.phase {
            Phase::Waiting(id) => match value {
                Err(fault) => {
                    let error = WorkerError::WorkerFailed(
                        join2("worker sent invalid JSON: ", fault.as_str()),
                    );
                    let reason = join2("malformed worker frame: ", fault.as_str());
                    self.restart(life, reason, Some(error))
                },
                Ok(json) => if self.ready_pending && json.str_field("id").is_none() {
                    self.take_ready(life, &json)
                } else {
                    self.take_reply(life, id, &json)
                },
            },
            _ => {
                if !self.ready_pending {
                    return self.restart(life, "unsolicited worker output".to_owned(), None);
                }
                match value {
                    Err(fault) => {
                        let reason = join2("worker sent invalid JSON: ", fault.as_str());
                        self.restart(life, reason, None)
                    },
                    Ok(json) => if carries_id(&json) {
                        let reason = "worker replied although no request was outstanding";
                        self.restart(life, reason.to_owned(), None)
                    } else {
                        self.take_ready(life, &json)
                    },
                }
            },
        }
    }

    fn take_frame(&mut self, life: &mut Lifecycle, frame: Result<Frame, String>) -> (res: Actions)
        ensures
            stepped(*final(self), *final(life), res) == frame_step(
                *old(self),
                old(life)@,
                frame_view(frame),
            ),
    {
        match frame {
            Ok(Frame::Line(text)) => {
                let value = parse_json(text.as_str());
                self.take_value(life, value)
            },
            Ok(Frame::Eof) => {
                let reason = "worker closed stdout (EOF)".to_owned();
                if self.is_waiting() {
                    let error = WorkerError::WorkerFailed(
                        "worker closed its output stream".to_owned(),
                    );
                    self.restart(life, reason, Some(error))
                } else {
                    let error = StartError::Failed(reason.clone());
                    self.restart_settled(life, reason, error)
                }
            },
            Ok(Frame::Oversized(seen)) => {
                let cap: usize = self.limits.max_response_bytes;
                let reason = join5(
                    "worker response exceeded ",
                    decimal(cap as u64).as_str(),
                    " bytes (at least ",
                    decimal(seen as u64).as_str(),
                    " bytes read)",
                );
                let error = if self.is_waiting() {
                    Some(WorkerError::OversizedResponse(cap))
                } else {
                    None
                };
                self.restart(life, reason, error)
            },
            Err(fault) => {
                let reason = join2("worker read error: ", fault.as_str());
                let error = if self.is_waiting() {
                    Some(WorkerError::WorkerFailed(reason.clone()))
                } else {
                    None
                };
                self.restart(life, reason, error)
            },
        }
    }

    fn take_exit(&mut self, life: &mut Lifecycle, exit: Result<String, String>) -> (res: Actions)
        ensures
            stepped(*final(self), *final(life), res) == transition(
                *old(self),
                old(life)@,
                Event::ChildExited(exit)@,
            ),
    {
        let detail = match exit {
            Ok(status) => join2("worker exited with ", status.as_str()),
            Err(fault) => join2("cannot wait on worker: ", fault.as_str()),
        };
        let error = StartError::Failed(detail.clone());
        self.restart_settled(life, detail, error)
    }

    fn take_tick(&mut self, life: &mut Lifecycle, caller_gone: bool) -> (res: Actions)
        ensures
            stepped(*final(self), *final(life), res) == transition(
                *old(self),
                old(life)@,
                EventView::Tick { caller_gone },
            ),
    {
        match self.phase {
            Phase::Waiting(id) => {
                if life.is_shutting_down() {
                    return self.stop(life);
                }
                if caller_gone {
                    let reason = join3(
                        "request ",
                        decimal(id).as_str(),
                        " was canceled by the caller",
                    );
                    return self.restart(life, reason, None);
                }
                Actions::none()
            },
            _ => Actions::none(),
        }
    }

    /// Takes in an event and says what to do about it.
    pub fn step(&mut self, life: &mut Lifecycle, event: Event) -> (res: Actions)
        requires
            well_formed(*old(self)),
            accepts(*old(self), event@),
        ensures
            well_formed(*final(self)),
            stepped(*final(self), *final(life), res) == transition(
                *old(self),
                old(life)@,
                event@,
            ),
            event@ matches EventView::Job(params) ==> (!(old(life)@.state is ShuttingDown)
                && readable_within(params, (MAX_NESTING - 1) as nat) ==> {
                &&& res@.write is Some
                &&& res@.write->0.len() > 0
                &&& res@.write->0.last() == 10
                &&& parsed(decode_utf8(res@.write->0.drop_last())) matches Ok(
                    JsonView::Object(fields),
                ) && {
                    &&& fields.dom() == set!["id"@, "method"@, "params"@]
                    &&& fields["id"@] == JsonView::Text(digits((old(self).next_id + 1) as nat))
                    &&& fields["method"@] == JsonView::Text("predict"@)
                    &&& fields["params"@] == params
                }
            }),
    {
        let timeout = self.limits.inference_timeout;
        match event {
            Event::Check { abandoned, startup_expired } => self.check(
                life,
                abandoned,
                startup_expired,
            ),
            Event::Job(params) => self.take_job(life, params),
            Event::JobsClosed => self.stop(life),
            Event::ChildExited(exit) => self.take_exit(life, exit),
            Event::Read(frame) => self.take_frame(life, frame),
            Event::Tick { caller_gone } => self.take_tick(life, caller_gone),
            Event::Deadline => {
                let reason = join3(
                    "worker did not answer within ",
                    decimal(timeout.as_secs()).as_str(),
                    "s",
                );
                self.restart(life, reason, Some(WorkerError::InferenceTimeout(timeout)))
            },
            Event::Written => {
                self.phase = Phase::Waiting(self.next_id);
                Actions::none()
            },
            Event::WriteFailed(fault) => {
                let reason = join2("cannot write to worker: ", fault.as_str());
                let error = WorkerError::WorkerFailed("worker write failed".to_owned());
                self.restart(life, reason, Some(error))
            },
            Event::WriteTimedOut => {
                let reason = "worker input deadline exceeded".to_owned();
                self.restart(life, reason, Some(WorkerError::InferenceTimeout(timeout)))
            },
            Event::ForceStop => {
                self.phase = Phase::Ended;
                Actions { outcome: Some(SessionOutcome::Kill), ..Actions::none() }
            },
        }
    }
}

} // verus!
