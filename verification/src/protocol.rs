//! What holds of every session, and of every run of a session.

use vstd::prelude::*;

use crate::codec::parsed;
use crate::codec::rendered;
use crate::frame::frame_line;
use crate::frame::FrameView;
use crate::json::bool_field;
use crate::json::field;
use crate::json::text_field;
use crate::json::JsonView;
use crate::json::unsigned_field;
use crate::reply::reply_of;
use crate::reply::ParsedReplyView;
use crate::reply::ReplyView;
use crate::session::accepts;
use crate::session::lemma_request_frame_says_it_all;
use crate::session::lemma_shutdown_frame_asks_to_exit;
use crate::session::outstanding;
use crate::session::published;
use crate::session::request_step;
use crate::session::request_tree;
use crate::session::shutdown_tree;
use crate::session::stop_with;
use crate::session::transition;
use crate::session::well_formed;
use crate::session::ActionsView;
use crate::session::EventView;
use crate::session::LifecycleView;
use crate::session::OutcomeView;
use crate::session::Phase;
use crate::session::Session;
use crate::supervisor::admission_fault;
use crate::supervisor::early_settle;
use crate::supervisor::ended_life;
use crate::supervisor::failed_life;
use crate::supervisor::late_settle;
use crate::supervisor::leaving_life;
use crate::supervisor::unspawned_life;
use crate::text::digits;
use crate::text::lemma_digits_injective;
use crate::time::Duration;
use crate::worker::lemma_ready_frame_is_complete;
use crate::worker::lemma_ready_worker_is_identified;
use crate::worker::ready_fault;
use crate::worker::ready_info;
use crate::worker::StartErrorView;
use crate::worker::StateView;
use crate::worker::WorkerErrorView;
use crate::worker::WorkerInfoView;

verus! {

/// The JSON value in the line that an event reads from the worker.
pub open spec fn line_tree(event: EventView) -> Option<JsonView> {
    match event {
        EventView::Read(Ok(FrameView::Line(text))) => match parsed(text) {
            Ok(tree) => Some(tree),
            Err(_) => None,
        },
        _ => None,
    }
}

/// Whether an event is the worker's refusal of request `id`, for which its caller gets `error`.
pub open spec fn refuses_with(event: EventView, id: nat, error: WorkerErrorView) -> bool {
    match line_tree(event) {
        Some(tree) => match reply_of(tree) {
            Ok(reply) => {
                &&& reply.id == digits(id)
                &&& reply.body matches ReplyView::Refusal(body) && body.as_worker_error() == error
            },
            Err(_) => false,
        },
        None => false,
    }
}

/// Every event leaves a session in good order.
pub proof fn lemma_session_stays_well_formed(
    session: Session,
    life: LifecycleView,
    event: EventView,
)
    requires
        well_formed(session),
        accepts(session, event),
    ensures
        well_formed(transition(session, life, event).session),
        transition(session, life, event).session.limits == session.limits,
{
}

/// A result that is passed on to a caller was sent by the worker, under the id of the one
/// request that is outstanding, as a successful reply.
pub proof fn lemma_answer_is_for_the_outstanding_request(
    session: Session,
    life: LifecycleView,
    event: EventView,
    result: JsonView,
)
    requires
        well_formed(session),
        accepts(session, event),
        transition(session, life, event).actions.reply == Some(
            Ok::<JsonView, WorkerErrorView>(result),
        ),
    ensures
        session.phase == Phase::Waiting(session.next_id),
        line_tree(event) matches Some(tree) && {
            &&& text_field(tree, "id"@) == Some(digits(session.next_id as nat))
            &&& bool_field(tree, "ok"@) == Some(true)
            &&& field(tree, "result"@) == Some(result)
        },
{
}

/// Only a caller whose request was taken in is answered, and with the answer the request is
/// not outstanding any more. A request that is given up without an answer ends the session.
pub proof fn lemma_reply_closes_the_request(
    session: Session,
    life: LifecycleView,
    event: EventView,
)
    requires
        well_formed(session),
        accepts(session, event),
    ensures
        ({
            let step = transition(session, life, event);
            &&& step.actions.reply is Some ==> (outstanding(session) || event is Job)
                && !outstanding(step.session)
            &&& outstanding(session) && !outstanding(step.session) && step.actions.reply is None
                ==> step.actions.outcome is Some
        }),
{
}

/// Requests are numbered upwards, and each is written with its own number. All else that is
/// written is the frame that asks the worker to exit, at the end of the session.
pub proof fn lemma_request_numbers_go_up(session: Session, life: LifecycleView, event: EventView)
    requires
        well_formed(session),
        accepts(session, event),
    ensures
        ({
            let step = transition(session, life, event);
            &&& step.session.next_id == session.next_id || writes_request(step.actions)
            &&& step.actions.write is Some && step.actions.outcome is None ==> {
                let line = step.actions.write->0;
                &&& step.session.next_id == session.next_id + 1
                &&& step.session.phase == Phase::Writing(step.session.next_id)
                &&& event matches EventView::Job(params) && line == frame_line(
                    request_tree(step.session.next_id as nat, params),
                )
            }
            &&& step.actions.write is Some && step.actions.outcome is Some ==> {
                &&& step.actions.outcome == Some(OutcomeView::Shutdown)
                &&& step.actions.write == Some(frame_line(shutdown_tree()))
            }
        }),
{
}

/// The ready handshake is settled while someone waits for it, and then nobody does any more.
pub proof fn lemma_settling_ends_the_handshake(
    session: Session,
    life: LifecycleView,
    event: EventView,
)
    requires
        well_formed(session),
        accepts(session, event),
    ensures
        ({
            let step = transition(session, life, event);
            &&& step.actions.settle is Some ==> session.ready_pending && !step.session.ready_pending
            &&& step.actions.settle is None ==> step.session.ready_pending == session.ready_pending
        }),
{
}

/// A worker that is not to be trusted any more is known to have failed, unless the daemon is
/// going away, and its session is over.
pub proof fn lemma_restart_fails_closed(session: Session, life: LifecycleView, event: EventView)
    requires
        well_formed(session),
        accepts(session, event),
        transition(session, life, event).actions.outcome matches Some(OutcomeView::Restart(_)),
    ensures
        ({
            let step = transition(session, life, event);
            &&& step.session.phase is Ended
            &&& step.life.state is Failed || step.life.state is ShuttingDown
        }),
{
}

/// A session that is over takes in nothing more, and one that goes on is not over.
pub proof fn lemma_ended_sessions_are_inert(
    session: Session,
    life: LifecycleView,
    event: EventView,
)
    ensures
        session.phase is Ended ==> !accepts(session, event),
        well_formed(session) && accepts(session, event) ==> (transition(
            session,
            life,
            event,
        ).session.phase is Ended <==> transition(session, life, event).actions.outcome is Some),
{
}

/// A worker that replies to a request, be it with a refusal, stays in service unless it calls
/// itself broken: the caller gets the reply, and nothing else changes.
pub proof fn lemma_reply_keeps_the_worker(
    session: Session,
    life: LifecycleView,
    event: EventView,
    tree: JsonView,
    reply: ParsedReplyView,
)
    requires
        session.phase == Phase::Waiting(session.next_id),
        line_tree(event) == Some(tree),
        reply_of(tree) == Ok::<ParsedReplyView, Seq<char>>(reply),
        reply.id == digits(session.next_id as nat),
        !reply.body.is_fatal(),
    ensures
        ({
            let step = transition(session, life, event);
            &&& step.session == Session { phase: Phase::Idle, ..session }
            &&& step.life == life
            &&& step.actions == ActionsView {
                settle: None,
                reply: Some(reply.body.as_result()),
                write: None,
                outcome: None,
            }
        }),
{
}

/// An error that a caller gets either is the worker's own refusal of that request, or the
/// session ends with it.
pub proof fn lemma_faults_end_the_session(
    session: Session,
    life: LifecycleView,
    event: EventView,
    error: WorkerErrorView,
)
    requires
        well_formed(session),
        accepts(session, event),
        transition(session, life, event).actions.reply == Some(
            Err::<JsonView, WorkerErrorView>(error),
        ),
    ensures
        transition(session, life, event).actions.outcome is Some || refuses_with(
            event,
            session.next_id as nat,
            error,
        ),
{
}

/// A worker becomes ready, and metadata of it is known, only by a valid ready frame.
pub proof fn lemma_ready_needs_a_ready_frame(
    session: Session,
    life: LifecycleView,
    event: EventView,
)
    requires
        well_formed(session),
        accepts(session, event),
        (!(life.state is Ready) && transition(session, life, event).life.state is Ready)
            || transition(session, life, event).life.info != life.info,
    ensures
        session.ready_pending,
        line_tree(event) matches Some(tree) && ready_fault(tree) is None && transition(
            session,
            life,
            event,
        ).life.info == Some(ready_info(tree)),
{
}

/// After the ready handshake is settled, no event changes what is known of the worker: its
/// identity stays the same for as long as it is in service.
pub proof fn lemma_identity_is_stable(session: Session, life: LifecycleView, event: EventView)
    requires
        well_formed(session),
        accepts(session, event),
        !session.ready_pending,
    ensures
        transition(session, life, event).life.info == life.info,
        transition(session, life, event).life.pid == life.pid,
{
}

/// A stream that ends, a line that is too long and a read that fails all invalidate the worker,
/// and the caller of an outstanding request is told.
pub proof fn lemma_stream_faults_invalidate_the_worker(
    session: Session,
    life: LifecycleView,
    event: EventView,
)
    requires
        well_formed(session),
        accepts(session, event),
        event matches EventView::Read(frame) && !(frame matches Ok(FrameView::Line(_))),
    ensures
        ({
            let step = transition(session, life, event);
            &&& step.actions.outcome matches Some(OutcomeView::Restart(_))
            &&& session.phase is Waiting <==> step.actions.reply matches Some(Err(_))
        }),
{
}

/// Once the daemon is shutting down, no event changes that.
pub proof fn lemma_shutdown_is_kept(session: Session, life: LifecycleView, event: EventView)
    requires
        well_formed(session),
        accepts(session, event),
        life.state is ShuttingDown,
    ensures
        transition(session, life, event).life.state is ShuttingDown,
{
}

/// A session that looks around while the daemon is shutting down ends, and takes in no request.
/// A worker that is ready and has no request is asked to exit, with the frame whose id is `null`
/// and whose method is `shutdown`; any other is written nothing.
pub proof fn lemma_shutdown_ends_the_session(
    session: Session,
    life: LifecycleView,
    event: EventView,
)
    requires
        well_formed(session),
        accepts(session, event),
        life.state is ShuttingDown,
        event is Check || event is Job || (event is Tick && session.phase is Waiting),
    ensures
        ({
            let step = transition(session, life, event);
            &&& step.actions.outcome == Some(OutcomeView::Shutdown)
            &&& step.life == life
            &&& step.actions.write == if session.phase is Idle && !session.ready_pending {
                Some(frame_line(shutdown_tree()))
            } else {
                None
            }
            &&& event is Job ==> step.actions.reply == Some(
                Err::<JsonView, WorkerErrorView>(WorkerErrorView::ShuttingDown),
            )
        }),
{
}

/// What a session has become after a run: a list of events, each with the lifecycle as the
/// session found it, which others may have changed in between.
pub open spec fn after(session: Session, run: Seq<(LifecycleView, EventView)>) -> Session
    decreases run.len(),
{
    if run.len() == 0 {
        session
    } else {
        transition(after(session, run.drop_last()), run.last().0, run.last().1).session
    }
}

/// Whether every event of a run can happen when it does.
pub open spec fn is_run(session: Session, run: Seq<(LifecycleView, EventView)>) -> bool {
    &&& well_formed(session)
    &&& forall|i: int| 0 <= i < run.len() ==> accepts(#[trigger] after(session, run.take(i)), run[i].1)
}

/// What the session wants done on event `i` of a run.
pub open spec fn actions_at(
    session: Session,
    run: Seq<(LifecycleView, EventView)>,
    i: int,
) -> ActionsView {
    transition(after(session, run.take(i)), run[i].0, run[i].1).actions
}

/// Whether a request is written: what a session writes without ending.
pub open spec fn writes_request(actions: ActionsView) -> bool {
    actions.write is Some && actions.outcome is None
}

proof fn lemma_one_more(session: Session, run: Seq<(LifecycleView, EventView)>, i: int)
    requires
        is_run(session, run),
        0 <= i < run.len(),
    ensures
        accepts(after(session, run.take(i)), run[i].1),
        after(session, run.take(i + 1)) == transition(
            after(session, run.take(i)),
            run[i].0,
            run[i].1,
        ).session,
{
    assert(run.take(i + 1).drop_last() =~= run.take(i));
    assert(run.take(i + 1).last() == run[i]);
}

proof fn lemma_run_well_formed(session: Session, run: Seq<(LifecycleView, EventView)>, i: int)
    requires
        is_run(session, run),
        0 <= i <= run.len(),
    ensures
        well_formed(after(session, run.take(i))),
    decreases i,
{
    if i > 0 {
        lemma_run_well_formed(session, run, i - 1);
        lemma_one_more(session, run, i - 1);
    }
}

proof fn lemma_numbers_over_time(
    session: Session,
    run: Seq<(LifecycleView, EventView)>,
    i: int,
    j: int,
)
    requires
        is_run(session, run),
        0 <= i <= j <= run.len(),
    ensures
        after(session, run.take(i)).next_id <= after(session, run.take(j)).next_id,
    decreases j - i,
{
    if i < j {
        lemma_numbers_over_time(session, run, i, j - 1);
        lemma_one_more(session, run, j - 1);
        lemma_run_well_formed(session, run, j - 1);
    }
}

/// In no run is a late reply taken for an answer: when a later request has been written, a
/// result is not passed on that came under the id of an earlier one.
pub proof fn lemma_late_replies_are_never_passed_on(
    session: Session,
    run: Seq<(LifecycleView, EventView)>,
    earlier: int,
    later: int,
    now: int,
)
    requires
        is_run(session, run),
        0 <= earlier < later < now < run.len(),
        writes_request(actions_at(session, run, earlier)),
        writes_request(actions_at(session, run, later)),
        actions_at(session, run, now).reply matches Some(Ok(_)),
    ensures
        line_tree(run[now].1) matches Some(tree) && text_field(tree, "id"@) != Some(
            digits(after(session, run.take(earlier + 1)).next_id as nat),
        ),
{
    let at_now = after(session, run.take(now));
    lemma_run_well_formed(session, run, now);
    lemma_one_more(session, run, now);
    lemma_run_well_formed(session, run, later);
    lemma_one_more(session, run, later);
    lemma_numbers_over_time(session, run, earlier + 1, later);
    lemma_numbers_over_time(session, run, later + 1, now);
    let first = after(session, run.take(earlier + 1)).next_id;
    assert(first < at_now.next_id);
    if digits(first as nat) == digits(at_now.next_id as nat) {
        lemma_digits_injective(first as nat, at_now.next_id as nat);
    }
}

proof fn lemma_no_request_without_a_job(
    session: Session,
    run: Seq<(LifecycleView, EventView)>,
    i: int,
    j: int,
)
    requires
        is_run(session, run),
        0 <= i <= j <= run.len(),
        !outstanding(after(session, run.take(i))),
        forall|m: int| i <= m < j ==> !((#[trigger] run[m]).1 is Job),
    ensures
        !outstanding(after(session, run.take(j))),
    decreases j - i,
{
    if i < j {
        lemma_no_request_without_a_job(session, run, i, j - 1);
        lemma_one_more(session, run, j - 1);
        lemma_run_well_formed(session, run, j - 1);
        assert(!(run[j - 1].1 is Job));
    }
}

/// In no run is a request answered twice: between two answers a new request comes in.
pub proof fn lemma_one_answer_for_each_request(
    session: Session,
    run: Seq<(LifecycleView, EventView)>,
    first: int,
    second: int,
)
    requires
        is_run(session, run),
        0 <= first < second < run.len(),
        actions_at(session, run, first).reply is Some,
        actions_at(session, run, second).reply is Some,
    ensures
        exists|m: int| first < m <= second && (#[trigger] run[m]).1 is Job,
{
    lemma_run_well_formed(session, run, first);
    lemma_one_more(session, run, first);
    lemma_run_well_formed(session, run, second);
    lemma_one_more(session, run, second);
    if forall|m: int| first < m <= second ==> !((#[trigger] run[m]).1 is Job) {
        lemma_no_request_without_a_job(session, run, first + 1, second);
        assert(!(run[second].1 is Job));
    }
}

/// How many requests are written before event `i` of a run.
pub open spec fn requests_before(
    session: Session,
    run: Seq<(LifecycleView, EventView)>,
    i: int,
) -> nat
    decreases i,
{
    if i <= 0 {
        0
    } else {
        requests_before(session, run, i - 1) + if writes_request(actions_at(session, run, i - 1)) {
            1nat
        } else {
            0nat
        }
    }
}

proof fn lemma_numbers_count_requests(
    session: Session,
    run: Seq<(LifecycleView, EventView)>,
    i: int,
)
    requires
        is_run(session, run),
        0 <= i <= run.len(),
    ensures
        after(session, run.take(i)).next_id == session.next_id + requests_before(session, run, i),
    decreases i,
{
    if i > 0 {
        lemma_numbers_count_requests(session, run, i - 1);
        lemma_one_more(session, run, i - 1);
        lemma_run_well_formed(session, run, i - 1);
        lemma_request_numbers_go_up(
            after(session, run.take(i - 1)),
            run[i - 1].0,
            run[i - 1].1,
        );
    } else {
        assert(run.take(0) =~= Seq::empty());
    }
}

/// In every run of a session from its start, the first request that is written carries the id
/// 1, the second the id 2, and so on, each with the parameters that came in with it.
pub proof fn lemma_requests_are_numbered_in_turn(
    session: Session,
    run: Seq<(LifecycleView, EventView)>,
    at: int,
)
    requires
        is_run(session, run),
        session.next_id == 0,
        0 <= at < run.len(),
        writes_request(actions_at(session, run, at)),
    ensures
        run[at].1 matches EventView::Job(params) && actions_at(session, run, at).write == Some(
            frame_line(request_tree(requests_before(session, run, at) + 1, params)),
        ),
{
    lemma_numbers_count_requests(session, run, at);
    lemma_one_more(session, run, at);
    lemma_run_well_formed(session, run, at);
    lemma_request_numbers_go_up(after(session, run.take(at)), run[at].0, run[at].1);
}

proof fn lemma_request_is_closed_by_a_reply(
    session: Session,
    run: Seq<(LifecycleView, EventView)>,
    i: int,
    j: int,
)
    requires
        is_run(session, run),
        0 <= i <= j < run.len(),
        outstanding(after(session, run.take(i))),
        !outstanding(after(session, run.take(j))),
    ensures
        exists|m: int| i <= m < j && (#[trigger] actions_at(session, run, m)).reply is Some,
    decreases j - i,
{
    lemma_one_more(session, run, i);
    lemma_run_well_formed(session, run, i);
    let before = after(session, run.take(i));
    let next = after(session, run.take(i + 1));
    lemma_reply_closes_the_request(before, run[i].0, run[i].1);
    lemma_ended_sessions_are_inert(before, run[i].0, run[i].1);
    lemma_one_more(session, run, i + 1);
    lemma_ended_sessions_are_inert(next, run[i + 1].0, run[i + 1].1);
    if outstanding(next) {
        lemma_request_is_closed_by_a_reply(session, run, i + 1, j);
        let m = choose|m: int|
            i + 1 <= m < j && (#[trigger] actions_at(session, run, m)).reply is Some;
        assert(actions_at(session, run, m).reply is Some);
    } else {
        assert(actions_at(session, run, i).reply is Some);
    }
}

/// In every run, one request is written only after the one before was answered.
pub proof fn lemma_one_request_at_a_time(
    session: Session,
    run: Seq<(LifecycleView, EventView)>,
    earlier: int,
    later: int,
)
    requires
        is_run(session, run),
        0 <= earlier < later < run.len(),
        writes_request(actions_at(session, run, earlier)),
        writes_request(actions_at(session, run, later)),
    ensures
        exists|m: int|
            earlier < m < later && (#[trigger] actions_at(session, run, m)).reply is Some,
{
    lemma_one_more(session, run, earlier);
    lemma_run_well_formed(session, run, earlier);
    lemma_request_numbers_go_up(
        after(session, run.take(earlier)),
        run[earlier].0,
        run[earlier].1,
    );
    lemma_one_more(session, run, later);
    lemma_run_well_formed(session, run, later);
    lemma_request_numbers_go_up(after(session, run.take(later)), run[later].0, run[later].1);
    lemma_request_is_closed_by_a_reply(session, run, earlier + 1, later);
}

proof fn lemma_handshake_stays_settled(
    session: Session,
    run: Seq<(LifecycleView, EventView)>,
    i: int,
    j: int,
)
    requires
        is_run(session, run),
        0 <= i <= j <= run.len(),
        !after(session, run.take(i)).ready_pending,
    ensures
        !after(session, run.take(j)).ready_pending,
    decreases j - i,
{
    if i < j {
        lemma_handshake_stays_settled(session, run, i, j - 1);
        lemma_one_more(session, run, j - 1);
        lemma_run_well_formed(session, run, j - 1);
    }
}

/// In no run is the ready handshake settled twice.
pub proof fn lemma_handshake_is_settled_once(
    session: Session,
    run: Seq<(LifecycleView, EventView)>,
    first: int,
    second: int,
)
    requires
        is_run(session, run),
        0 <= first < second < run.len(),
        actions_at(session, run, first).settle is Some,
    ensures
        actions_at(session, run, second).settle is None,
{
    lemma_run_well_formed(session, run, first);
    lemma_one_more(session, run, first);
    lemma_run_well_formed(session, run, second);
    lemma_one_more(session, run, second);
    lemma_handshake_stays_settled(session, run, first + 1, second);
}

proof fn lemma_pending_until_settled(
    session: Session,
    run: Seq<(LifecycleView, EventView)>,
    i: int,
)
    requires
        is_run(session, run),
        session.ready_pending,
        0 <= i <= run.len(),
    ensures
        after(session, run.take(i)).ready_pending <==> forall|m: int|
            0 <= m < i ==> (#[trigger] actions_at(session, run, m)).settle is None,
    decreases i,
{
    if i > 0 {
        lemma_pending_until_settled(session, run, i - 1);
        lemma_one_more(session, run, i - 1);
        lemma_run_well_formed(session, run, i - 1);
        lemma_settling_ends_the_handshake(
            after(session, run.take(i - 1)),
            run[i - 1].0,
            run[i - 1].1,
        );
        if after(session, run.take(i)).ready_pending {
            assert forall|m: int| 0 <= m < i implies (#[trigger] actions_at(
                session,
                run,
                m,
            )).settle is None by {
                if m == i - 1 {
                    assert(actions_at(session, run, i - 1).settle is None);
                }
            }
        }
        if forall|m: int| 0 <= m < i ==> (#[trigger] actions_at(session, run, m)).settle is None {
            assert(actions_at(session, run, i - 1).settle is None);
        }
    }
}

/// Whoever waits for the ready handshake is told, whatever happens: by the session, or at its
/// end, before or after the worker process is reaped, and never by two of these.
pub proof fn lemma_startup_is_always_told(
    session: Session,
    run: Seq<(LifecycleView, EventView)>,
    outcome: OutcomeView,
    reaped: Result<Seq<char>, Seq<char>>,
)
    requires
        is_run(session, run),
        session.ready_pending,
    ensures
        ({
            let pending = after(session, run).ready_pending;
            let by_session = exists|m: int|
                0 <= m < run.len() && (#[trigger] actions_at(session, run, m)).settle is Some;
            let before = early_settle(outcome, pending) is Some;
            let behind = late_settle(outcome, pending, reaped) is Some;
            &&& by_session || before || behind
            &&& !(by_session && before) && !(by_session && behind) && !(before && behind)
        }),
{
    lemma_pending_until_settled(session, run, run.len() as int);
    assert(run.take(run.len() as int) =~= run);
    if !after(session, run).ready_pending {
        let m = choose|m: int|
            0 <= m < run.len() && !((#[trigger] actions_at(session, run, m)).settle is None);
        assert(actions_at(session, run, m).settle is Some);
    }
}

/// Something that changes what everyone who holds the worker sees of it.
pub enum Change {
    /// An event of a session.
    Step(Session, EventView),
    /// The worker process was started.
    Started(Option<u32>),
    /// The worker process could not be started.
    SpawnFailed(Seq<char>),
    /// The worker was found untrustworthy.
    Published(Seq<char>),
    /// The worker was marked as failed.
    MarkedFailed(Seq<char>),
    /// A session ended and its worker was reaped.
    Reaped(OutcomeView, Result<Seq<char>, Seq<char>>),
    /// The daemon began to shut down.
    ShutDown,
}

/// The lifecycle after a change.
pub open spec fn changed(life: LifecycleView, change: Change) -> LifecycleView {
    match change {
        Change::Step(session, event) => transition(session, life, event).life,
        Change::Started(pid) => LifecycleView { pid, ..life },
        Change::SpawnFailed(detail) => unspawned_life(life, detail),
        Change::Published(reason) => LifecycleView {
            state: published(life.state, reason),
            ..life
        },
        Change::MarkedFailed(reason) => failed_life(life, reason),
        Change::Reaped(outcome, reaped) => ended_life(life, outcome, reaped),
        Change::ShutDown => leaving_life(life),
    }
}

/// The lifecycle after a list of changes.
pub open spec fn lived(life: LifecycleView, changes: Seq<Change>) -> LifecycleView
    decreases changes.len(),
{
    if changes.len() == 0 {
        life
    } else {
        changed(lived(life, changes.drop_last()), changes.last())
    }
}

/// Whether the worker process could not be started at some point.
pub open spec fn start_failed(changes: Seq<Change>) -> bool {
    exists|i: int| 0 <= i < changes.len() && (#[trigger] changes[i]) is SpawnFailed
}

/// A worker that could not be started has no session: no event of one follows.
pub open spec fn silent_unless_started(changes: Seq<Change>) -> bool {
    forall|i: int, j: int|
        0 <= i < j < changes.len() && (#[trigger] changes[i]) is SpawnFailed ==> !((
        #[trigger] changes[j]) is Step)
}

/// Whether every prediction that has an admission slot is refused with the code `unavailable`.
pub open spec fn unavailable(state: StateView) -> bool {
    admission_fault(true, state) matches Some(error) && error.code() == "unavailable"@
}

proof fn lemma_refusing_stays(life: LifecycleView, changes: Seq<Change>)
    requires
        life.state is ShuttingDown || life.state is Failed,
        life.state is Failed ==> forall|i: int|
            0 <= i < changes.len() ==> !((#[trigger] changes[i]) is Step),
        silent_unless_started(changes),
    ensures
        lived(life, changes).state is ShuttingDown || lived(life, changes).state is Failed,
        life.state is ShuttingDown && !start_failed(changes) ==> lived(
            life,
            changes,
        ).state is ShuttingDown,
    decreases changes.len(),
{
    if changes.len() > 0 {
        let front = changes.drop_last();
        let last = changes.len() - 1;
        assert(changes.last() == changes[last]);
        assert forall|i: int| 0 <= i < front.len() implies #[trigger] front[i] == changes[i] by {}
        lemma_refusing_stays(life, front);
        if start_failed(front) {
            let i = choose|i: int| 0 <= i < front.len() && (#[trigger] front[i]) is SpawnFailed;
            assert(changes[i] is SpawnFailed);
        }
        if changes[last] is SpawnFailed {
            assert(start_failed(changes));
        }
    }
}

proof fn lemma_gone_stays(life: LifecycleView, changes: Seq<Change>)
    requires
        life.info is None,
        life.pid is None,
        forall|i: int|
            0 <= i < changes.len() ==> !((#[trigger] changes[i]) is Step) && !(changes[i] is Started),
    ensures
        lived(life, changes).info is None,
        lived(life, changes).pid is None,
    decreases changes.len(),
{
    if changes.len() > 0 {
        let front = changes.drop_last();
        assert forall|i: int| 0 <= i < front.len() implies !((#[trigger] front[i]) is Step) && !(
        front[i] is Started) by {
            assert(front[i] == changes[i]);
        }
        lemma_gone_stays(life, front);
        assert(changes.last() == changes[changes.len() - 1]);
    }
}

/// From when the daemon begins to shut down, and whatever else happens, every prediction that
/// has an admission slot is refused with the code `unavailable`: because the daemon is shutting
/// down, unless the worker process could not be started. After the worker is reaped nothing is
/// known of it any more, and it stays so unless a new worker is started.
pub proof fn lemma_shutdown_refuses_all_later_work(
    life: LifecycleView,
    changes: Seq<Change>,
    outcome: OutcomeView,
    reaped: Result<Seq<char>, Seq<char>>,
    later: Seq<Change>,
)
    requires
        silent_unless_started(changes),
        forall|i: int|
            0 <= i < later.len() ==> !((#[trigger] later[i]) is Step) && !(later[i] is Started),
    ensures
        ({
            let running = lived(leaving_life(life), changes);
            let ended = lived(ended_life(running, outcome, reaped), later);
            &&& unavailable(running.state)
            &&& unavailable(ended.state)
            &&& ended.info is None
            &&& ended.pid is None
            &&& !start_failed(changes) ==> {
                &&& running.state is ShuttingDown
                &&& admission_fault(true, running.state) == Some(WorkerErrorView::ShuttingDown)
            }
            &&& !start_failed(changes) && !start_failed(later) ==> {
                &&& ended.state is ShuttingDown
                &&& admission_fault(true, ended.state) == Some(WorkerErrorView::ShuttingDown)
            }
        }),
{
    let running = lived(leaving_life(life), changes);
    lemma_refusing_stays(leaving_life(life), changes);
    lemma_refusing_stays(ended_life(running, outcome, reaped), later);
    lemma_gone_stays(ended_life(running, outcome, reaped), later);
}

/// A job that a session takes in is written to the worker as one line: an object of exactly an
/// id, the method `predict` and the parameters, the id being the decimal text of the next number
/// and the parameters those of the job, whatever they are. Nothing else happens.
pub proof fn lemma_job_reaches_the_worker_unchanged(
    session: Session,
    life: LifecycleView,
    params: JsonView,
)
    requires
        session.phase is Idle,
        session.next_id < u64::MAX,
        !(life.state is ShuttingDown),
    ensures
        accepts(session, EventView::Job(params)),
        ({
            let step = transition(session, life, EventView::Job(params));
            let id = (session.next_id + 1) as u64;
            &&& exists|fields: Map<Seq<char>, JsonView>|
                {
                    &&& step.actions.write == Some(
                        (#[trigger] rendered(JsonView::Object(fields))).push(10),
                    )
                    &&& fields.dom() == set!["id"@, "method"@, "params"@]
                    &&& fields["id"@] == JsonView::Text(digits(id as nat))
                    &&& fields["method"@] == JsonView::Text("predict"@)
                    &&& fields["params"@] == params
                }
            &&& step.actions.reply is None
            &&& step.actions.settle is None
            &&& step.actions.outcome is None
            &&& step.session == Session { next_id: id, phase: Phase::Writing(id), ..session }
            &&& step.life == life
        }),
{
    let id = (session.next_id + 1) as nat;
    lemma_request_frame_says_it_all(id, params);
    let fields = request_tree(id, params)->Object_0;
    assert(rendered(JsonView::Object(fields)).push(10) == frame_line(request_tree(id, params)));
}

/// What a session writes to a worker that it lets go is one line: an object of exactly the id
/// `null` and the method `shutdown`.
pub proof fn lemma_worker_is_asked_to_exit(session: Session, life: LifecycleView, event: EventView)
    requires
        well_formed(session),
        accepts(session, event),
        transition(session, life, event).actions.outcome is Some,
        transition(session, life, event).actions.write is Some,
    ensures
        exists|fields: Map<Seq<char>, JsonView>|
            {
                &&& transition(session, life, event).actions.write == Some(
                    (#[trigger] rendered(JsonView::Object(fields))).push(10),
                )
                &&& fields.dom() == set!["id"@, "method"@]
                &&& fields["id"@] is Null
                &&& fields["method"@] == JsonView::Text("shutdown"@)
            },
{
    lemma_shutdown_frame_asks_to_exit();
    let fields = shutdown_tree()->Object_0;
    assert(rendered(JsonView::Object(fields)).push(10) == frame_line(shutdown_tree()));
}

/// Whoever waits for the ready handshake is told of a worker that says it is ready under no id,
/// with a process id of 32 bits and the name of an actual device, whichever device it is. The
/// worker is ready from then on, unless the daemon is going away, and known by what it said.
pub proof fn lemma_ready_frame_makes_the_worker_ready(
    session: Session,
    life: LifecycleView,
    text: Seq<char>,
    tree: JsonView,
    pid: u64,
    device: Seq<char>,
)
    requires
        session.phase is Idle || session.phase is Waiting,
        session.ready_pending,
        parsed(text) == Ok::<JsonView, Seq<char>>(tree),
        bool_field(tree, "ready"@) == Some(true),
        field(tree, "id"@) is None || field(tree, "id"@) == Some(JsonView::Null),
        unsigned_field(tree, "pid"@) == Some(pid),
        0 < pid <= u32::MAX,
        text_field(tree, "device"@) == Some(device),
        device.len() > 0,
        device != "unknown"@,
    ensures
        ({
            let step = transition(session, life, EventView::Read(Ok(FrameView::Line(text))));
            &&& step.life.state == if life.state is ShuttingDown {
                StateView::ShuttingDown
            } else {
                StateView::Ready
            }
            &&& step.life.pid == life.pid
            &&& step.life.info matches Some(info) && {
                &&& info.pid == pid
                &&& info.device == device
                &&& text_field(tree, "model"@) matches Some(model) ==> info.model == model
                &&& text_field(tree, "model"@) is None ==> info.model.len() == 0
                &&& text_field(tree, "checkpoint"@) matches Some(name) ==> (name.len() > 0
                    ==> info.checkpoint == name)
                &&& text_field(tree, "requested_device"@) matches Some(name)
                    ==> info.requested_device == name
                &&& text_field(tree, "laya_version"@) matches Some(version)
                    ==> info.laya_version == version
                &&& step.actions.settle == Some(Ok::<WorkerInfoView, StartErrorView>(info))
            }
            &&& step.actions.reply is None
            &&& step.actions.write is None
            &&& step.actions.outcome is None
            &&& step.session == Session { ready_pending: false, ..session }
        }),
{
    lemma_ready_frame_is_complete(tree, pid, device);
}

/// A frame that comes in as the ready frame and is not one, for want of a true ready mark, of a
/// process id or of an actual device, invalidates the worker: it does not become ready, and
/// nothing is known of it that was not before.
pub proof fn lemma_other_frames_make_no_worker_ready(
    session: Session,
    life: LifecycleView,
    text: Seq<char>,
    tree: JsonView,
)
    requires
        session.phase is Idle,
        session.ready_pending,
        parsed(text) == Ok::<JsonView, Seq<char>>(tree),
        bool_field(tree, "ready"@) != Some(true) || !(field(tree, "id"@) is None || field(
            tree,
            "id"@,
        ) == Some(JsonView::Null)) || !(unsigned_field(tree, "pid"@) matches Some(pid) && 0 < pid
            <= u32::MAX) || !(text_field(tree, "device"@) matches Some(device) && device.len() > 0
            && device != "unknown"@),
    ensures
        ({
            let step = transition(session, life, EventView::Read(Ok(FrameView::Line(text))));
            &&& step.actions.outcome is Some
            &&& step.actions.outcome->0 is Restart
            &&& step.actions.settle is None
            &&& step.actions.write is None
            &&& step.life.state is Failed || step.life.state is ShuttingDown
            &&& step.life.info == life.info
        }),
{
    if ready_fault(tree) is None {
        lemma_ready_worker_is_identified(tree);
    }
}

/// The result that the worker sends under the id of the outstanding request is passed on to its
/// caller as it came, and the worker goes on to the next request.
pub proof fn lemma_result_is_passed_on(
    session: Session,
    life: LifecycleView,
    text: Seq<char>,
    tree: JsonView,
    result: JsonView,
)
    requires
        session.phase == Phase::Waiting(session.next_id),
        parsed(text) == Ok::<JsonView, Seq<char>>(tree),
        text_field(tree, "id"@) == Some(digits(session.next_id as nat)),
        bool_field(tree, "ok"@) == Some(true),
        field(tree, "result"@) == Some(result),
    ensures
        ({
            let step = transition(session, life, EventView::Read(Ok(FrameView::Line(text))));
            &&& step.actions.reply == Some(Ok::<JsonView, WorkerErrorView>(result))
            &&& step.actions.settle is None
            &&& step.actions.write is None
            &&& step.actions.outcome is None
            &&& step.session == Session { phase: Phase::Idle, ..session }
            &&& step.life == life
        }),
{
}

/// A refusal that the worker sends under the id of the outstanding request is passed on with its
/// own message: as a fault of the request where its code says so, else as a failure of the
/// worker. The worker goes on to the next request, unless it calls itself broken.
pub proof fn lemma_refusal_is_passed_on(
    session: Session,
    life: LifecycleView,
    text: Seq<char>,
    tree: JsonView,
    error: Map<Seq<char>, JsonView>,
)
    requires
        session.phase == Phase::Waiting(session.next_id),
        parsed(text) == Ok::<JsonView, Seq<char>>(tree),
        text_field(tree, "id"@) == Some(digits(session.next_id as nat)),
        bool_field(tree, "ok"@) == Some(false),
        field(tree, "error"@) == Some(JsonView::Object(error)),
        error.contains_key("code"@) ==> error["code"@] is Text || error["code"@] is Null,
        error.contains_key("message"@) ==> error["message"@] is Text || error["message"@] is Null,
        error.contains_key("fatal"@) ==> error["fatal"@] is Bool,
    ensures
        ({
            let step = transition(session, life, EventView::Read(Ok(FrameView::Line(text))));
            let code = text_field(JsonView::Object(error), "code"@);
            let message = match text_field(JsonView::Object(error), "message"@) {
                Some(message) => message,
                None => "worker rejected the request"@,
            };
            let broken = bool_field(JsonView::Object(error), "fatal"@) == Some(true) || bool_field(
                tree,
                "fatal"@,
            ) == Some(true);
            &&& step.actions.reply == Some(
                Err::<JsonView, WorkerErrorView>(
                    if code == Some("invalid_request"@) || code == Some("validation"@) {
                        WorkerErrorView::InvalidRequest(message)
                    } else {
                        WorkerErrorView::WorkerFailed(message)
                    },
                ),
            )
            &&& broken <==> step.actions.outcome is Some
            &&& broken ==> step.actions.outcome->0 is Restart
            &&& !broken ==> step.session == (Session { phase: Phase::Idle, ..session }) && step.life
                == life
            &&& step.actions.settle is None
            &&& step.actions.write is None
        }),
{
}

/// A refusal without an error object is passed on as a failure of the worker.
pub proof fn lemma_bare_refusal_is_passed_on(
    session: Session,
    life: LifecycleView,
    text: Seq<char>,
    tree: JsonView,
)
    requires
        session.phase == Phase::Waiting(session.next_id),
        parsed(text) == Ok::<JsonView, Seq<char>>(tree),
        text_field(tree, "id"@) == Some(digits(session.next_id as nat)),
        bool_field(tree, "ok"@) == Some(false),
        field(tree, "error"@) is None,
    ensures
        ({
            let step = transition(session, life, EventView::Read(Ok(FrameView::Line(text))));
            &&& step.actions.reply == Some(
                Err::<JsonView, WorkerErrorView>(
                    WorkerErrorView::WorkerFailed("worker rejected the request"@),
                ),
            )
            &&& step.actions.outcome is Some <==> bool_field(tree, "fatal"@) == Some(true)
        }),
{
}

/// A line that comes in for the outstanding request and is no reply to it fails the request and
/// invalidates the worker: no JSON, no or another id, no verdict, or no result.
pub proof fn lemma_no_reply_fails_the_request(
    session: Session,
    life: LifecycleView,
    text: Seq<char>,
)
    requires
        session.phase == Phase::Waiting(session.next_id),
        !session.ready_pending,
        parsed(text) matches Ok(tree) ==> text_field(tree, "id"@) != Some(
            digits(session.next_id as nat),
        ) || bool_field(tree, "ok"@) is None || (bool_field(tree, "ok"@) == Some(true) && field(
            tree,
            "result"@,
        ) is None) || (bool_field(tree, "ok"@) == Some(false) && (field(
            tree,
            "error"@,
        ) matches Some(error) && !(error is Object) && !(error is List))),
    ensures
        ({
            let step = transition(session, life, EventView::Read(Ok(FrameView::Line(text))));
            &&& step.actions.reply matches Some(Err(WorkerErrorView::WorkerFailed(_)))
            &&& step.actions.outcome matches Some(OutcomeView::Restart(_))
            &&& step.session.phase is Ended
        }),
{
}

/// Where a worker is found untrustworthy for a reason, the lifecycle names that reason, unless
/// it already names an earlier one or the daemon is going away. What is known of the worker
/// stays until it is reaped.
pub proof fn lemma_restart_names_its_reason(
    session: Session,
    life: LifecycleView,
    event: EventView,
    reason: Seq<char>,
)
    requires
        well_formed(session),
        accepts(session, event),
        transition(session, life, event).actions.outcome == Some(OutcomeView::Restart(reason)),
    ensures
        transition(session, life, event).life == (LifecycleView {
            state: if life.state is Failed || life.state is ShuttingDown {
                life.state
            } else {
                StateView::Failed(reason)
            },
            ..life
        }),
        transition(session, life, event).actions.write is None,
{
}

/// What goes wrong while a request is outstanding fails the request with the error that says
/// what it was, and invalidates the worker: the deadline passes before the request is written or
/// answered, it cannot be written, the reply is longer than allowed, or the stream ends or fails.
pub proof fn lemma_faults_are_told_by_their_kind(
    session: Session,
    life: LifecycleView,
    event: EventView,
)
    requires
        well_formed(session),
        accepts(session, event),
        outstanding(session),
        !(event is Check) && !(event is Tick) && !(event is Written) && !(event is ForceStop),
        !(event matches EventView::Read(Ok(FrameView::Line(_)))),
    ensures
        ({
            let step = transition(session, life, event);
            &&& step.actions.outcome matches Some(OutcomeView::Restart(_))
            &&& step.actions.settle is None
            &&& match event {
                EventView::Deadline | EventView::WriteTimedOut => step.actions.reply == Some(
                    Err::<JsonView, WorkerErrorView>(
                        WorkerErrorView::InferenceTimeout(session.limits.inference_timeout),
                    ),
                ),
                EventView::Read(Ok(FrameView::Oversized(_))) => step.actions.reply == Some(
                    Err::<JsonView, WorkerErrorView>(
                        WorkerErrorView::OversizedResponse(session.limits.max_response_bytes),
                    ),
                ),
                _ => step.actions.reply matches Some(Err(WorkerErrorView::WorkerFailed(_))),
            }
        }),
{
}

/// While a request is outstanding and all is well, nothing happens: once written it is waited
/// for, and time that passes changes nothing. A caller who goes away takes the worker with them,
/// unless the daemon is going away.
pub proof fn lemma_waiting_is_undisturbed(session: Session, life: LifecycleView, caller_gone: bool)
    requires
        well_formed(session),
        outstanding(session),
    ensures
        session.phase is Writing ==> {
            let step = transition(session, life, EventView::Written);
            &&& step.session == Session { phase: Phase::Waiting(session.next_id), ..session }
            &&& step.life == life
            &&& step.actions.write is None && step.actions.reply is None
            &&& step.actions.settle is None && step.actions.outcome is None
        },
        session.phase is Waiting ==> {
            let step = transition(session, life, EventView::Tick { caller_gone });
            &&& step.actions.settle is None
            &&& step.actions.reply is None
            &&& step.actions.write is None
            &&& life.state is ShuttingDown ==> step.actions.outcome == Some(OutcomeView::Shutdown)
            &&& !(life.state is ShuttingDown) && caller_gone ==> (
            step.actions.outcome matches Some(OutcomeView::Restart(_)))
            &&& !(life.state is ShuttingDown) && !caller_gone ==> step.actions.outcome is None
                && step.session == session && step.life == life
        },
{
}

/// While nobody has a request outstanding and all is well, nothing happens. Where the worker
/// process ends, the worker is lost, and whoever waits for the ready handshake is told the exit
/// status; where the jobs end, so does the session; and a word from a ready worker that nobody
/// asked invalidates it.
pub proof fn lemma_idle_faults_are_told(
    session: Session,
    life: LifecycleView,
    exit: Result<Seq<char>, Seq<char>>,
    text: Seq<char>,
    caller_gone: bool,
)
    requires
        session.phase is Idle,
    ensures
        ({
            let step = transition(session, life, EventView::ChildExited(exit));
            let reason = match exit {
                Ok(status) => "worker exited with "@ + status,
                Err(fault) => "cannot wait on worker: "@ + fault,
            };
            &&& step.actions.outcome == Some(OutcomeView::Restart(reason))
            &&& step.actions.settle == if session.ready_pending {
                Some(Err::<WorkerInfoView, StartErrorView>(StartErrorView::Failed(reason)))
            } else {
                None
            }
            &&& step.actions.reply is None
        }),
        transition(session, life, EventView::JobsClosed).actions.outcome == Some(
            OutcomeView::Shutdown,
        ),
        transition(session, life, EventView::JobsClosed).actions.write is Some
            <==> !session.ready_pending,
        transition(session, life, EventView::Tick { caller_gone }).session == session,
        transition(session, life, EventView::Tick { caller_gone }).life == life,
        transition(session, life, EventView::Tick { caller_gone }).actions == (ActionsView {
            settle: None,
            reply: None,
            write: None,
            outcome: None,
        }),
        !session.ready_pending ==> (transition(
            session,
            life,
            EventView::Read(Ok(FrameView::Line(text))),
        ).actions.outcome matches Some(OutcomeView::Restart(_))),
        transition(session, life, EventView::Read(Ok(FrameView::Eof))).actions.settle is Some
            <==> session.ready_pending,
{
}

/// A look around ends the session where the daemon is going away or whoever waited for the ready
/// handshake went away, and where the startup deadline passes first; whoever waits is then told
/// of the deadline. Else it changes nothing.
pub proof fn lemma_a_look_around(
    session: Session,
    life: LifecycleView,
    abandoned: bool,
    startup_expired: bool,
)
    requires
        session.phase is Idle || session.phase is Waiting,
    ensures
        ({
            let step = transition(session, life, EventView::Check { abandoned, startup_expired });
            let leaving = life.state is ShuttingDown || (session.ready_pending && abandoned);
            let late = session.ready_pending && startup_expired;
            &&& leaving ==> step.actions.outcome == Some(OutcomeView::Shutdown)
                && step.actions.settle is None
            &&& !leaving && late ==> {
                &&& step.actions.outcome matches Some(OutcomeView::Restart(_))
                &&& step.actions.settle == Some(
                    Err::<WorkerInfoView, StartErrorView>(
                        StartErrorView::Timeout(session.limits.startup_timeout),
                    ),
                )
            }
            &&& !leaving && !late ==> {
                &&& step.session == session
                &&& step.life == life
                &&& step.actions == ActionsView {
                    settle: None,
                    reply: None,
                    write: None,
                    outcome: None,
                }
            }
            &&& step.actions.reply is None
        }),
{
}

/// A session that is open can be stopped at once, and is told so to the supervisor alone.
pub proof fn lemma_open_sessions_can_be_killed(session: Session, life: LifecycleView)
    requires
        !(session.phase is Ended),
    ensures
        accepts(session, EventView::ForceStop),
        ({
            let step = transition(session, life, EventView::ForceStop);
            &&& step.session == Session { phase: Phase::Ended, ..session }
            &&& step.life == life
            &&& step.actions == ActionsView {
                settle: None,
                reply: None,
                write: None,
                outcome: Some(OutcomeView::Kill),
            }
        }),
{
}

/// An open session takes in whatever can come up: requests, the end of the jobs or of the worker
/// process while none is outstanding, the fate of a write while one is written, and the worker's
/// words, the passing of time and looks around while one is waited for or none is there.
pub proof fn lemma_open_sessions_take_what_comes(
    session: Session,
    params: JsonView,
    exit: Result<Seq<char>, Seq<char>>,
    frame: Result<FrameView, Seq<char>>,
    fault: Seq<char>,
    flag: bool,
    other: bool,
)
    ensures
        session.phase is Idle ==> {
            &&& accepts(session, EventView::Job(params)) <==> session.next_id < u64::MAX
            &&& accepts(session, EventView::JobsClosed)
            &&& accepts(session, EventView::ChildExited(exit))
        },
        session.phase is Idle || session.phase is Waiting ==> {
            &&& accepts(session, EventView::Check { abandoned: flag, startup_expired: other })
            &&& accepts(session, EventView::Read(frame))
            &&& accepts(session, EventView::Tick { caller_gone: flag })
        },
        session.phase is Waiting ==> accepts(session, EventView::Deadline),
        session.phase is Writing ==> {
            &&& accepts(session, EventView::Written)
            &&& accepts(session, EventView::WriteFailed(fault))
            &&& accepts(session, EventView::WriteTimedOut)
        },
        !(session.phase is Idle) ==> !accepts(session, EventView::Job(params)),
{
}

/// The reason for which a worker is given up, and what the caller of the outstanding request is
/// told, say what happened, with what is known of it.
pub proof fn lemma_faults_are_told_in_words(
    session: Session,
    life: LifecycleView,
    text: Seq<char>,
    seen: nat,
    fault: Seq<char>,
)
    ensures
        ({
            let waiting = session.phase is Waiting;
            let oversized = transition(
                session,
                life,
                EventView::Read(Ok(FrameView::Oversized(seen))),
            );
            let unread = transition(session, life, EventView::Read(Err(fault)));
            let closed = transition(session, life, EventView::Read(Ok(FrameView::Eof)));
            let unwritten = transition(session, life, EventView::WriteFailed(fault));
            &&& oversized.actions.outcome == Some(
                OutcomeView::Restart(
                    "worker response exceeded "@ + digits(
                        session.limits.max_response_bytes as nat,
                    ) + " bytes (at least "@ + digits(seen) + " bytes read)"@,
                ),
            )
            &&& unread.actions.outcome == Some(
                OutcomeView::Restart("worker read error: "@ + fault),
            )
            &&& waiting ==> unread.actions.reply == Some(
                Err::<JsonView, WorkerErrorView>(
                    WorkerErrorView::WorkerFailed("worker read error: "@ + fault),
                ),
            )
            &&& closed.actions.outcome == Some(OutcomeView::Restart("worker closed stdout (EOF)"@))
            &&& waiting ==> closed.actions.reply == Some(
                Err::<JsonView, WorkerErrorView>(
                    WorkerErrorView::WorkerFailed("worker closed its output stream"@),
                ),
            )
            &&& !waiting && session.ready_pending ==> closed.actions.settle == Some(
                Err::<WorkerInfoView, StartErrorView>(
                    StartErrorView::Failed("worker closed stdout (EOF)"@),
                ),
            )
            &&& unwritten.actions.outcome == Some(
                OutcomeView::Restart("cannot write to worker: "@ + fault),
            )
            &&& unwritten.actions.reply == Some(
                Err::<JsonView, WorkerErrorView>(
                    WorkerErrorView::WorkerFailed("worker write failed"@),
                ),
            )
            &&& transition(session, life, EventView::WriteTimedOut).actions.outcome == Some(
                OutcomeView::Restart("worker input deadline exceeded"@),
            )
        }),
{
}

/// Deadlines are told in the whole seconds of the limit that passed, and a request that its caller
/// gave up by its number.
pub proof fn lemma_deadlines_are_told_in_seconds(session: Session, life: LifecycleView, millis: u64)
    ensures
        session.limits.inference_timeout == Duration::of_millis(millis) ==> transition(
            session,
            life,
            EventView::Deadline,
        ).actions.outcome == Some(
            OutcomeView::Restart(
                "worker did not answer within "@ + digits((millis / 1000) as nat) + "s"@,
            ),
        ),
        session.limits.startup_timeout == Duration::of_millis(millis) && session.ready_pending
            && !(life.state is ShuttingDown) ==> transition(
            session,
            life,
            EventView::Check { abandoned: false, startup_expired: true },
        ).actions.outcome == Some(
            OutcomeView::Restart(
                "worker did not become ready within "@ + digits((millis / 1000) as nat) + "s"@,
            ),
        ),
        session.phase == Phase::Waiting(session.next_id) && !(life.state is ShuttingDown)
            ==> transition(session, life, EventView::Tick { caller_gone: true }).actions.outcome
            == Some(
            OutcomeView::Restart(
                "request "@ + digits(session.next_id as nat) + " was canceled by the caller"@,
            ),
        ),
{
}

/// A line that is no reply is told by what is wrong with it: it is no JSON, it has no id, no
/// verdict or no result, or it is the reply to another request.
pub proof fn lemma_bad_replies_are_told_in_words(
    session: Session,
    life: LifecycleView,
    text: Seq<char>,
    fault: Seq<char>,
    tree: JsonView,
    id: Seq<char>,
)
    requires
        session.phase == Phase::Waiting(session.next_id),
        !session.ready_pending,
    ensures
        ({
            let step = transition(session, life, EventView::Read(Ok(FrameView::Line(text))));
            let expected = digits(session.next_id as nat);
            &&& parsed(text) == Err::<JsonView, Seq<char>>(fault) ==> {
                &&& step.actions.reply == Some(
                    Err::<JsonView, WorkerErrorView>(
                        WorkerErrorView::WorkerFailed("worker sent invalid JSON: "@ + fault),
                    ),
                )
                &&& step.actions.outcome == Some(
                    OutcomeView::Restart("malformed worker frame: "@ + fault),
                )
            }
            &&& parsed(text) == Ok::<JsonView, Seq<char>>(tree) ==> {
                &&& text_field(tree, "id"@) is None ==> step.actions.outcome == Some(
                    OutcomeView::Restart("reply frame has no string id"@),
                )
                &&& text_field(tree, "id"@) is Some && bool_field(tree, "ok"@) is None
                    ==> step.actions.outcome == Some(
                    OutcomeView::Restart("reply frame has no boolean ok field"@),
                )
                &&& text_field(tree, "id"@) is Some && bool_field(tree, "ok"@) == Some(true)
                    && field(tree, "result"@) is None ==> step.actions.outcome == Some(
                    OutcomeView::Restart("ok reply has no result"@),
                )
                &&& text_field(tree, "id"@) == Some(id) && id != expected && bool_field(tree, "ok"@)
                    == Some(true) && field(tree, "result"@) is Some ==> {
                    &&& step.actions.reply == Some(
                        Err::<JsonView, WorkerErrorView>(
                            WorkerErrorView::WorkerFailed(
                                "response id "@ + id + " does not match request id "@ + expected,
                            ),
                        ),
                    )
                    &&& step.actions.outcome == Some(
                        OutcomeView::Restart(
                            "worker "@ + ("response id "@ + id + " does not match request id "@
                                + expected),
                        ),
                    )
                }
            }
        }),
{
}

/// An error object whose code or message is neither a text nor `null`, or whose fatal mark is no
/// boolean, is no refusal: it fails the request and invalidates the worker.
pub proof fn lemma_malformed_errors_invalidate_the_worker(
    session: Session,
    life: LifecycleView,
    text: Seq<char>,
    tree: JsonView,
    error: Map<Seq<char>, JsonView>,
)
    requires
        session.phase == Phase::Waiting(session.next_id),
        parsed(text) == Ok::<JsonView, Seq<char>>(tree),
        text_field(tree, "id"@) == Some(digits(session.next_id as nat)),
        bool_field(tree, "ok"@) == Some(false),
        field(tree, "error"@) == Some(JsonView::Object(error)),
        (error.contains_key("code"@) && !(error["code"@] is Text) && !(error["code"@] is Null)) || (
        error.contains_key("message"@) && !(error["message"@] is Text) && !(
        error["message"@] is Null)) || (error.contains_key("fatal"@) && !(error["fatal"@] is Bool)),
    ensures
        ({
            let step = transition(session, life, EventView::Read(Ok(FrameView::Line(text))));
            &&& step.actions.reply matches Some(Err(WorkerErrorView::WorkerFailed(_)))
            &&& step.actions.outcome matches Some(OutcomeView::Restart(_))
        }),
{
}

/// What comes in place of the ready frame is told by what is wrong with it, and so is a word from
/// a ready worker that nobody asked.
pub proof fn lemma_startup_faults_are_told_in_words(
    session: Session,
    life: LifecycleView,
    text: Seq<char>,
    fault: Seq<char>,
    tree: JsonView,
)
    requires
        session.phase is Idle,
    ensures
        ({
            let step = transition(session, life, EventView::Read(Ok(FrameView::Line(text))));
            let answers = field(tree, "id"@) is Some && field(tree, "id"@) != Some(JsonView::Null);
            &&& !session.ready_pending ==> step.actions.outcome == Some(
                OutcomeView::Restart("unsolicited worker output"@),
            )
            &&& session.ready_pending && parsed(text) == Err::<JsonView, Seq<char>>(fault)
                ==> step.actions.outcome == Some(
                OutcomeView::Restart("worker sent invalid JSON: "@ + fault),
            )
            &&& session.ready_pending && parsed(text) == Ok::<JsonView, Seq<char>>(tree) && answers
                ==> step.actions.outcome == Some(
                OutcomeView::Restart("worker replied although no request was outstanding"@),
            )
            &&& session.ready_pending && parsed(text) == Ok::<JsonView, Seq<char>>(tree) && !answers
                && ready_fault(tree) == Some(fault) ==> step.actions.outcome == Some(
                OutcomeView::Restart(fault),
            )
        }),
{
}

/// A line that is at hand for a request is written under the next number, and one that cannot be
/// made fails the request and the worker. A line that is at hand to ask the worker to exit is
/// written only to one that is ready and has no request.
pub proof fn lemma_given_lines_are_written(
    session: Session,
    life: LifecycleView,
    line: Seq<u8>,
    fault: Seq<char>,
)
    requires
        session.next_id < u64::MAX,
    ensures
        ({
            let id = (session.next_id + 1) as u64;
            let asked = request_step(session, life, Ok(line));
            let failed = request_step(session, life, Err(fault));
            let left = stop_with(session, life, Ok(line));
            let silent = stop_with(session, life, Err(fault));
            &&& asked.actions.write == Some(line)
            &&& asked.actions.outcome is None
            &&& asked.session == Session { next_id: id, phase: Phase::Writing(id), ..session }
            &&& asked.life == life
            &&& failed.actions.write is None
            &&& failed.actions.outcome == Some(
                OutcomeView::Restart("cannot write to worker: "@ + fault),
            )
            &&& failed.actions.reply == Some(
                Err::<JsonView, WorkerErrorView>(
                    WorkerErrorView::WorkerFailed("worker write failed"@),
                ),
            )
            &&& failed.session.phase is Ended
            &&& left.actions.write == if session.phase is Idle && !session.ready_pending {
                Some(line)
            } else {
                None
            }
            &&& silent.actions.write is None
            &&& left.actions.outcome == Some(OutcomeView::Shutdown)
            &&& silent.actions.outcome == Some(OutcomeView::Shutdown)
            &&& left.session.phase is Ended && silent.session.phase is Ended
            &&& left.life == life && silent.life == life
        }),
{
}

} // verus!
