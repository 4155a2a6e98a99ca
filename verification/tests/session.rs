use layad::codec::{parse_json, render_json};
use layad::daemon::{
    fail_fast_grace, on_worker_fault, readiness_after_failed_start, End,
};
use layad::api::Readiness;
use layad::frame::Frame;
use layad::json::Json;
use layad::session::{
    Actions, Event, Lifecycle, Limits, Phase, Session, SessionOutcome,
};
use layad::supervisor::{
    admission, after_kill, after_reap, after_terminate, before_reap, drained_error, finish_startup,
    prediction_result, spawn_error, Handshake, Reap, Waited,
};
use layad::time::Duration;
use layad::worker::{StartError, State, WorkerError, WorkerInfo};
use layad::{listening_line, FAIL_FAST_EXIT_CODE};

const SHUTDOWN: &[u8] = b"{\"id\":null,\"method\":\"shutdown\"}\n";

const READY: &str = r#"{"ready":true,"pid":7,"device":"cpu"}"#;

fn json(text: &str) -> Json {
    parse_json(text).expect("test JSON")
}

fn text(json: &Json) -> String {
    String::from_utf8(render_json(json).expect("rendered")).expect("UTF-8")
}

fn line(text: &str) -> Event {
    Event::Read(Ok(Frame::Line(text.to_string())))
}

fn fresh() -> (Session, Lifecycle) {
    let limits = Limits {
        max_response_bytes: 512,
        startup_timeout: Duration::from_millis(30_500),
        inference_timeout: Duration::from_secs(60),
    };
    (Session::new(limits), Lifecycle::new())
}

fn step(session: &mut Session, life: &mut Lifecycle, event: Event) -> Actions {
    assert!(session.can_take(&event), "{session:?} cannot take {event:?}");
    session.step(life, event)
}

fn ready() -> (Session, Lifecycle) {
    let (mut session, mut life) = fresh();
    let actions = step(&mut session, &mut life, line(READY));
    assert!(matches!(actions.settle, Some(Ok(_))));
    (session, life)
}

fn waiting() -> (Session, Lifecycle) {
    let (mut session, mut life) = ready();
    step(&mut session, &mut life, Event::Job(json("{}")));
    step(&mut session, &mut life, Event::Written);
    (session, life)
}

fn restart_reason(actions: &Actions) -> &str {
    match &actions.outcome {
        Some(SessionOutcome::Restart(reason)) => reason,
        other => panic!("expected a restart, got {other:?}"),
    }
}

fn reply_error(actions: &Actions) -> (&'static str, String) {
    match &actions.reply {
        Some(Err(error)) => (error.kind(), error.message()),
        other => panic!("expected an error reply, got {other:?}"),
    }
}

#[test]
fn a_ready_worker_answers_requests_in_turn() {
    let (mut session, mut life) = fresh();
    assert_eq!(life.state, State::Starting);
    let actions = step(
        &mut session,
        &mut life,
        Event::Check {
            abandoned: false,
            startup_expired: false,
        },
    );
    assert!(actions.outcome.is_none());
    let actions = step(&mut session, &mut life, line(READY));
    match actions.settle {
        Some(Ok(info)) => assert_eq!(info.identity(), "7:cpu:english"),
        other => panic!("expected a ready worker, got {other:?}"),
    }
    assert_eq!(life.state, State::Ready);
    assert_eq!(life.info.as_ref().map(|info| info.pid), Some(7));

    for id in 1..=12u64 {
        let actions = step(
            &mut session,
            &mut life,
            Event::Job(json(r#"{"state":"a\nb","questions":{}}"#)),
        );
        assert_eq!(session.phase, Phase::Writing(id));
        let written = String::from_utf8(actions.write.expect("a frame")).unwrap();
        assert_eq!(
            written,
            format!(
                "{{\"id\":\"{id}\",\"method\":\"predict\",\"params\":{{\"questions\":{{}},\"state\":\"a\\nb\"}}}}\n"
            )
        );
        step(&mut session, &mut life, Event::Written);
        assert_eq!(session.phase, Phase::Waiting(id));
        let actions = step(&mut session, &mut life, Event::Tick { caller_gone: false });
        assert!(actions.outcome.is_none());
        let reply = format!(r#"{{"id":"{id}","ok":true,"result":{{"n":{id}}}}}"#);
        let actions = step(&mut session, &mut life, line(&reply));
        match actions.reply {
            Some(Ok(result)) => assert_eq!(text(&result), format!("{{\"n\":{id}}}")),
            other => panic!("expected a result, got {other:?}"),
        }
        assert!(actions.outcome.is_none());
        assert_eq!(session.phase, Phase::Idle);
    }
    assert_eq!(life.state, State::Ready);
    let identity = life.info.map(|info| info.identity());
    assert_eq!(identity.as_deref(), Some("7:cpu:english"));
}

#[test]
fn a_rejected_request_leaves_the_worker_in_service() {
    let (mut session, mut life) = waiting();
    let actions = step(
        &mut session,
        &mut life,
        line(r#"{"id":"1","ok":false,"error":{"code":"invalid_request","message":"upstream rejected"}}"#),
    );
    assert_eq!(
        reply_error(&actions),
        ("invalid_request", "upstream rejected".to_string())
    );
    assert!(actions.outcome.is_none());
    assert_eq!(session.phase, Phase::Idle);
    assert_eq!(life.state, State::Ready);
    step(&mut session, &mut life, Event::Job(json("null")));
    assert_eq!(session.phase, Phase::Writing(2));
}

#[test]
fn a_fatal_error_ends_the_session() {
    let (mut session, mut life) = waiting();
    let actions = step(
        &mut session,
        &mut life,
        line(r#"{"id":"1","ok":false,"fatal":true,"error":{"message":"broken"}}"#),
    );
    assert_eq!(
        reply_error(&actions),
        ("worker_failed", "worker failed: broken".to_string())
    );
    assert_eq!(restart_reason(&actions), "worker reported a fatal error");
    assert_eq!(
        life.state,
        State::Failed("worker reported a fatal error".into())
    );
}

#[test]
fn malformed_and_stale_replies_invalidate_the_worker() {
    let cases = [
        (
            "nonsense",
            "worker failed: worker sent invalid JSON: expected ident at line 1 column 2",
            "malformed worker frame: expected ident at line 1 column 2",
        ),
        (
            r#"{"id":"9","ok":true,"result":1}"#,
            "worker failed: response id 9 does not match request id 1",
            "worker response id 9 does not match request id 1",
        ),
        (
            r#"{"ok":true,"result":1}"#,
            "worker failed: reply frame has no string id",
            "reply frame has no string id",
        ),
        (
            r#"{"id":"1","ok":true}"#,
            "worker failed: ok reply has no result",
            "ok reply has no result",
        ),
    ];
    for (frame, message, reason) in cases {
        let (mut session, mut life) = waiting();
        let actions = step(&mut session, &mut life, line(frame));
        assert_eq!(reply_error(&actions), ("worker_failed", message.to_string()));
        assert_eq!(restart_reason(&actions), reason);
        assert_eq!(session.phase, Phase::Ended);
        assert_eq!(life.state, State::Failed(reason.to_string()));
        let refused = admission(true, &life.state).unwrap_err();
        assert_eq!(refused.kind(), "unavailable");
        assert!(!session.can_take(&Event::Written));
        assert!(!session.can_take(&Event::ForceStop));
    }
}

#[test]
fn reading_faults_invalidate_the_worker() {
    let (mut session, mut life) = waiting();
    let actions = step(
        &mut session,
        &mut life,
        Event::Read(Ok(Frame::Oversized(600))),
    );
    assert_eq!(
        reply_error(&actions),
        (
            "oversized_response",
            "worker response exceeded 512 bytes".to_string()
        )
    );
    assert_eq!(
        restart_reason(&actions),
        "worker response exceeded 512 bytes (at least 600 bytes read)"
    );

    let (mut session, mut life) = waiting();
    let actions = step(&mut session, &mut life, Event::Read(Ok(Frame::Eof)));
    assert_eq!(
        reply_error(&actions).1,
        "worker failed: worker closed its output stream"
    );
    assert_eq!(restart_reason(&actions), "worker closed stdout (EOF)");

    let (mut session, mut life) = waiting();
    let actions = step(&mut session, &mut life, Event::Read(Err("reset".into())));
    assert_eq!(
        reply_error(&actions).1,
        "worker failed: worker read error: reset"
    );
    assert_eq!(restart_reason(&actions), "worker read error: reset");

    let (mut session, mut life) = ready();
    let actions = step(
        &mut session,
        &mut life,
        Event::Read(Ok(Frame::Oversized(513))),
    );
    assert!(actions.reply.is_none());
    assert_eq!(
        restart_reason(&actions),
        "worker response exceeded 512 bytes (at least 513 bytes read)"
    );
    let (mut session, mut life) = ready();
    let actions = step(&mut session, &mut life, Event::Read(Err("reset".into())));
    assert!(actions.reply.is_none());
    assert_eq!(restart_reason(&actions), "worker read error: reset");
}

#[test]
fn deadlines_and_cancellations_invalidate_the_worker() {
    let (mut session, mut life) = waiting();
    let actions = step(&mut session, &mut life, Event::Deadline);
    assert_eq!(
        reply_error(&actions),
        (
            "inference_timeout",
            "inference exceeded the 60s deadline".to_string()
        )
    );
    assert_eq!(
        restart_reason(&actions),
        "worker did not answer within 60s"
    );

    let (mut session, mut life) = waiting();
    let actions = step(&mut session, &mut life, Event::Tick { caller_gone: true });
    assert!(actions.reply.is_none());
    assert_eq!(
        restart_reason(&actions),
        "request 1 was canceled by the caller"
    );

    let (mut session, mut life) = ready();
    step(&mut session, &mut life, Event::Job(json("null")));
    let actions = step(&mut session, &mut life, Event::WriteTimedOut);
    assert_eq!(reply_error(&actions).0, "inference_timeout");
    assert_eq!(restart_reason(&actions), "worker input deadline exceeded");

    let (mut session, mut life) = ready();
    step(&mut session, &mut life, Event::Job(json("null")));
    let actions = step(
        &mut session,
        &mut life,
        Event::WriteFailed("broken pipe".into()),
    );
    assert_eq!(
        reply_error(&actions).1,
        "worker failed: worker write failed"
    );
    assert_eq!(
        restart_reason(&actions),
        "cannot write to worker: broken pipe"
    );
}

#[test]
fn startup_failures_are_told_apart() {
    let (mut session, mut life) = fresh();
    let actions = step(
        &mut session,
        &mut life,
        Event::Check {
            abandoned: false,
            startup_expired: true,
        },
    );
    match actions.settle {
        Some(Err(StartError::Timeout(limit))) => assert_eq!(limit.as_millis(), 30_500),
        other => panic!("expected a timeout, got {other:?}"),
    }
    assert_eq!(
        life.state,
        State::Failed("worker did not become ready within 30s".into())
    );
    assert!(!session.ready_pending);

    let (mut session, mut life) = fresh();
    let exit = Event::ChildExited(Ok("exit status: 3".into()));
    let actions = step(&mut session, &mut life, exit);
    assert!(
        matches!(&actions.settle, Some(Err(StartError::Failed(detail))) if detail == "worker exited with exit status: 3")
    );
    assert_eq!(
        restart_reason(&actions),
        "worker exited with exit status: 3"
    );

    let (mut session, mut life) = fresh();
    let actions = step(&mut session, &mut life, Event::Read(Ok(Frame::Eof)));
    assert!(
        matches!(&actions.settle, Some(Err(StartError::Failed(detail))) if detail == "worker closed stdout (EOF)")
    );

    let faults = [
        ("{", "worker sent invalid JSON: EOF while parsing an object at line 1 column 1"),
        (
            r#"{"id":1}"#,
            "worker replied although no request was outstanding",
        ),
        (
            r#"{"ready":false,"error":{"message":"no weights"}}"#,
            "no weights",
        ),
    ];
    for (frame, reason) in faults {
        let (mut session, mut life) = fresh();
        let actions = step(&mut session, &mut life, line(frame));
        assert!(actions.settle.is_none());
        assert!(session.ready_pending);
        assert_eq!(restart_reason(&actions), reason);
    }

    let (mut session, mut life) = fresh();
    let actions = step(
        &mut session,
        &mut life,
        Event::Check {
            abandoned: true,
            startup_expired: false,
        },
    );
    assert!(matches!(actions.outcome, Some(SessionOutcome::Shutdown)));
}

#[test]
fn idle_faults_are_noticed() {
    let (mut session, mut life) = ready();
    let actions = step(&mut session, &mut life, line("{}"));
    assert_eq!(restart_reason(&actions), "unsolicited worker output");

    let (mut session, mut life) = ready();
    let actions = step(
        &mut session,
        &mut life,
        Event::ChildExited(Err("no child".into())),
    );
    assert!(actions.settle.is_none());
    assert_eq!(
        restart_reason(&actions),
        "cannot wait on worker: no child"
    );

    let (mut session, mut life) = ready();
    let actions = step(&mut session, &mut life, Event::Tick { caller_gone: true });
    assert!(actions.outcome.is_none());
    let actions = step(&mut session, &mut life, Event::JobsClosed);
    assert!(matches!(actions.outcome, Some(SessionOutcome::Shutdown)));
    assert_eq!(life.state, State::Ready);
}

#[test]
fn a_ready_frame_may_come_while_a_request_waits() {
    let (mut session, mut life) = fresh();
    step(&mut session, &mut life, Event::Job(json("null")));
    step(&mut session, &mut life, Event::Written);
    let actions = step(&mut session, &mut life, line(READY));
    assert!(matches!(actions.settle, Some(Ok(_))));
    assert_eq!(session.phase, Phase::Waiting(1));
    let actions = step(
        &mut session,
        &mut life,
        line(r#"{"id":"1","ok":true,"result":null}"#),
    );
    assert!(matches!(actions.reply, Some(Ok(Json::Null))));
}

#[test]
fn shutdown_is_noticed_everywhere() {
    let check = || Event::Check {
        abandoned: false,
        startup_expired: true,
    };
    let (mut session, mut life) = fresh();
    life.begin_shutdown();
    let actions = step(&mut session, &mut life, check());
    assert!(matches!(actions.outcome, Some(SessionOutcome::Shutdown)));
    assert!(actions.settle.is_none());
    assert!(actions.write.is_none());

    let (mut session, mut life) = ready();
    life.begin_shutdown();
    let actions = step(&mut session, &mut life, check());
    assert!(matches!(actions.outcome, Some(SessionOutcome::Shutdown)));
    assert_eq!(actions.write.as_deref(), Some(SHUTDOWN));

    let (mut session, mut life) = ready();
    life.begin_shutdown();
    let actions = step(&mut session, &mut life, Event::Job(json("null")));
    assert!(matches!(actions.reply, Some(Err(WorkerError::ShuttingDown))));
    assert_eq!(actions.write.as_deref(), Some(SHUTDOWN));
    assert!(matches!(actions.outcome, Some(SessionOutcome::Shutdown)));

    let (mut session, mut life) = waiting();
    life.begin_shutdown();
    let actions = step(&mut session, &mut life, Event::Tick { caller_gone: true });
    assert!(actions.reply.is_none());
    assert!(matches!(actions.outcome, Some(SessionOutcome::Shutdown)));
    assert!(actions.write.is_none());
    let lost = prediction_result(None).unwrap_err();
    assert_eq!(lost.message(), "daemon is shutting down");

    let (mut session, mut life) = waiting();
    life.begin_shutdown();
    step(&mut session, &mut life, Event::Deadline);
    assert_eq!(life.state, State::ShuttingDown);

    let (mut session, mut life) = waiting();
    let actions = step(&mut session, &mut life, Event::ForceStop);
    assert!(matches!(actions.outcome, Some(SessionOutcome::Kill)));
    assert_eq!(session.phase, Phase::Ended);
}

#[test]
fn a_shutdown_is_not_lifted() {
    let (mut session, mut life) = fresh();
    life.begin_shutdown();
    let actions = step(&mut session, &mut life, line(READY));
    assert!(matches!(actions.settle, Some(Ok(_))));
    assert_eq!(life.state, State::ShuttingDown);
    life.mark_failed("lost");
    life.publish("lost");
    assert_eq!(life.state, State::ShuttingDown);
    let refused = admission(true, &life.state).unwrap_err();
    assert!(matches!(refused, WorkerError::ShuttingDown));
    assert_eq!(refused.kind(), "unavailable");
    after_reap(&mut life, &SessionOutcome::Shutdown, false, Ok("exit status: 0".into()));
    assert_eq!(life.state, State::ShuttingDown);
    assert!(life.info.is_none() && life.pid.is_none());
}

#[test]
fn a_worker_that_cannot_be_started_is_told_of_even_during_shutdown() {
    let mut life = Lifecycle::new();
    life.begin_shutdown();
    let error = life.spawn_failed("late".into());
    assert!(matches!(error, StartError::Failed(d) if d == "late"));
    assert_eq!(life.state, State::Failed("worker failed to start: late".into()));
    assert_eq!(admission(true, &life.state).unwrap_err().kind(), "unavailable");
}

#[test]
fn given_values_are_taken_without_reading_text() {
    let (mut session, mut life) = waiting();
    let actions = session.take_value(&mut life, Ok(json(r#"{"id":"1","ok":true,"result":[]}"#)));
    assert!(matches!(actions.reply, Some(Ok(Json::List(_)))));
    let (mut session, mut life) = ready();
    let actions = session.start_request(&mut life, Err("too deep".into()));
    assert_eq!(restart_reason(&actions), "cannot write to worker: too deep");
    assert_eq!(session.next_id, 1);
    let (mut session, life) = ready();
    let actions = session.stop_with(&life, Err("no line".into()));
    assert!(actions.write.is_none());
    assert!(matches!(actions.outcome, Some(SessionOutcome::Shutdown)));
}

#[test]
fn predictions_are_admitted_only_by_a_ready_worker() {
    assert!(admission(true, &State::Ready).is_ok());
    assert_eq!(
        admission(false, &State::Ready).unwrap_err().kind(),
        "overloaded"
    );
    let cases = [
        (State::Starting, "worker unavailable: worker is still loading"),
        (State::Pending("soon".into()), "worker unavailable: soon"),
        (State::Failed("lost".into()), "worker unavailable: lost"),
        (State::ShuttingDown, "daemon is shutting down"),
    ];
    for (state, message) in cases {
        assert_eq!(admission(true, &state).unwrap_err().message(), message);
    }
    let kept = prediction_result(Some(Ok(json("5")))).expect("a result");
    assert_eq!(kept.as_u64(), Some(5));
}

#[test]
fn startup_results_are_told_apart() {
    let limit = Duration::from_secs(600);
    let info = WorkerInfo::unreported(3);
    assert_eq!(
        finish_startup(Handshake::Settled(Ok(info)), limit).unwrap().pid,
        3
    );
    assert!(
        matches!(finish_startup(Handshake::TimedOut, limit), Err(StartError::Timeout(d)) if d == limit)
    );
    assert!(
        matches!(finish_startup(Handshake::Dropped, limit), Err(StartError::Failed(d)) if d == "worker supervision task ended before readiness")
    );
    let mut life = Lifecycle::new();
    assert!(life.start_allowed());
    let error = life.spawn_failed(spawn_error("python3", "not found"));
    assert!(
        matches!(error, StartError::Failed(d) if d == "cannot start worker python3: not found")
    );
    assert_eq!(
        life.state,
        State::Failed("worker failed to start: cannot start worker python3: not found".into())
    );
    assert!(!life.start_allowed());
}

#[test]
fn sessions_end_in_order() {
    let mut life = Lifecycle::new();
    life.started(Some(7));
    assert_eq!(life.kill_target(), Some(7));
    let restart = SessionOutcome::Restart("why".into());
    let before = before_reap(&restart, true);
    assert!(!before.kill && before.settle.is_none());
    let after = after_reap(&mut life, &restart, true, Ok("exit status: 3".into()));
    assert!(
        matches!(after.settle, Some(StartError::Failed(d)) if d == "worker exit status: 3")
    );
    assert_eq!(after.fatal.as_deref(), Some("worker exit status: 3"));
    assert_eq!(life.state, State::Failed("worker exit status: 3".into()));
    assert_eq!(life.kill_target(), None);
    assert_eq!(
        drained_error("worker exit status: 3").message(),
        "worker failed: worker exit status: 3"
    );

    let (_, mut life) = ready();
    life.begin_shutdown();
    let after = after_reap(&mut life, &restart, false, Err("cannot reap worker: x".into()));
    assert!(after.settle.is_none());
    assert_eq!(after.fatal.as_deref(), Some("cannot reap worker: x"));
    assert_eq!(life.state, State::ShuttingDown);

    for (outcome, kill) in [(SessionOutcome::Shutdown, false), (SessionOutcome::Kill, true)] {
        let (_, mut life) = ready();
        let before = before_reap(&outcome, true);
        assert_eq!(before.kill, kill);
        assert!(matches!(before.settle, Some(StartError::Failed(d)) if d == "worker stopped"));
        assert!(before_reap(&outcome, false).settle.is_none());
        let after = after_reap(&mut life, &outcome, true, Ok("x".into()));
        assert!(after.settle.is_none() && after.fatal.is_none());
        assert_eq!(life.state, State::Ready);
        assert!(life.info.is_none());
    }
}

#[test]
fn reaping_escalates() {
    let grace = Duration::from_millis(50);
    assert!(
        matches!(after_terminate(Waited::Exited("ok".into()), grace), Reap::Done(Ok(s)) if s == "ok")
    );
    assert!(
        matches!(after_terminate(Waited::Failed("e".into()), grace), Reap::Done(Err(s)) if s == "cannot reap worker: e")
    );
    assert!(
        matches!(after_terminate(Waited::TimedOut, grace), Reap::KillAndWait(d) if d.as_millis() == 200)
    );
    let long = Duration::from_secs(10);
    assert!(matches!(after_terminate(Waited::TimedOut, long), Reap::KillAndWait(d) if d == long));
    assert_eq!(after_kill(Waited::Exited("s".into())), Ok("s".to_string()));
    assert_eq!(
        after_kill(Waited::Failed("e".into())),
        Err("cannot reap worker: e".to_string())
    );
    assert_eq!(
        after_kill(Waited::TimedOut),
        Err("worker did not exit after SIGKILL".to_string())
    );
}

#[test]
fn the_daemon_exits_with_its_codes() {
    assert_eq!(FAIL_FAST_EXIT_CODE, 70);
    assert_eq!(End::BadConfig.exit_code(), 2);
    assert_eq!(End::Interrupted.exit_code(), 0);
    assert_eq!(End::Signaled.exit_code(), 0);
    assert_eq!(End::ServerStopped { in_order: true }.exit_code(), 0);
    for end in [
        End::CannotBind,
        End::StartFailed,
        End::WorkerLost,
        End::ServerStopped { in_order: false },
    ] {
        assert_eq!(end.exit_code(), 70);
    }
    assert_eq!(fail_fast_grace().as_millis(), 250);
    assert_eq!(
        listening_line("127.0.0.1:8787"),
        "layad listening on http://127.0.0.1:8787"
    );
    let plan = on_worker_fault("lost", true);
    assert_eq!(plan.readiness, Readiness::Failed("lost".into()));
    assert_eq!(plan.exit, Some(End::WorkerLost));
    assert_eq!(on_worker_fault("lost", false).exit, None);
    assert_eq!(
        readiness_after_failed_start(StartError::Timeout(Duration::from_secs(1))),
        Readiness::Failed("model load timed out".into())
    );
    assert_eq!(
        readiness_after_failed_start(StartError::Failed("x".into())),
        Readiness::Failed("x".into())
    );
}
