use layad::codec::parse_json;
use layad::json::Json;
use layad::reply::{parse_reply, ErrorBody, Reply};
use layad::time::Duration;
use layad::worker::{parse_ready, StartError, State, WorkerError, WorkerInfo};

fn json(text: &str) -> Json {
    parse_json(text).expect("test JSON")
}

#[test]
fn parse_ready_requires_ready_device() {
    let ok = json(r#"{"ready": true, "pid": 7, "device": "cpu", "checkpoint": "english"}"#);
    let info = parse_ready(&ok).unwrap();
    assert_eq!(info.pid, 7);
    assert_eq!(info.identity(), "7:cpu:english");
    // Missing the actual device: the worker must not be trusted as ready.
    assert!(parse_ready(&json(r#"{"ready": true}"#)).is_err());
    assert!(parse_ready(&json(r#"{"ready": true, "device": "unknown"}"#)).is_err());
    // A worker that reports a failed load is surfaced with its message.
    let failed =
        parse_ready(&json(r#"{"ready": false, "error": {"message": "no weights"}}"#)).unwrap_err();
    assert!(failed.contains("no weights"), "{failed}");
    assert!(parse_ready(&json(r#"{"ready": false, "device": "cpu"}"#)).is_err());
    assert!(parse_ready(&json(r#"{"ready": true, "device": "cpu", "id": "1"}"#)).is_err());
}

#[test]
fn parse_reply_accepts_and_rejects() {
    let ok = json(r#"{"id": "3", "ok": true, "result": {"answers": {}}}"#);
    assert_eq!(parse_reply(&ok).unwrap().id, "3");
    let err = json(
        r#"{"id": "4", "ok": false, "error": {"code": "invalid_request", "message": "bad"}}"#,
    );
    let parsed = parse_reply(&err).unwrap();
    assert_eq!(parsed.id, "4");
    match parsed.body {
        Reply::Refusal(body) => assert_eq!(body.code.as_deref(), Some("invalid_request")),
        Reply::Answer(_) => panic!("expected an error frame"),
    }
    assert!(parse_reply(&json(r#"{"id": "5", "ok": false}"#)).unwrap().id == "5");
    assert!(parse_reply(&json(r#"{"ok": true, "result": 1}"#)).is_err());
    assert!(parse_reply(&json(r#"{"id": "1", "result": 1}"#)).is_err());
    assert!(parse_reply(&json(r#"{"id": "1", "ok": true}"#)).is_err());
}

#[test]
fn error_codes_are_stable() {
    assert_eq!(WorkerError::Unavailable("x".into()).kind(), "unavailable");
    assert_eq!(
        WorkerError::StartupTimeout(Duration::from_secs(1)).kind(),
        "startup_failed"
    );
    assert_eq!(
        WorkerError::InferenceTimeout(Duration::from_secs(1)).kind(),
        "inference_timeout"
    );
    assert!(WorkerError::WorkerFailed("x".into()).invalidates_worker());
    assert!(!WorkerError::InvalidRequest("x".into()).invalidates_worker());
}

#[test]
fn every_error_has_its_words() {
    let cases: Vec<(WorkerError, &str, &str, bool)> = vec![
        (
            WorkerError::Unavailable("gone".into()),
            "unavailable",
            "worker unavailable: gone",
            false,
        ),
        (
            WorkerError::StartupTimeout(Duration::from_millis(90_500)),
            "startup_failed",
            "worker did not finish loading the model within 90s",
            true,
        ),
        (
            WorkerError::StartupFailed("no weights".into()),
            "startup_failed",
            "worker failed to start: no weights",
            true,
        ),
        (
            WorkerError::InferenceTimeout(Duration::from_secs(60)),
            "inference_timeout",
            "inference exceeded the 60s deadline",
            true,
        ),
        (
            WorkerError::WorkerFailed("eof".into()),
            "worker_failed",
            "worker failed: eof",
            true,
        ),
        (
            WorkerError::InvalidRequest("bad".into()),
            "invalid_request",
            "bad",
            false,
        ),
        (
            WorkerError::OversizedResponse(512),
            "oversized_response",
            "worker response exceeded 512 bytes",
            true,
        ),
        (
            WorkerError::ShuttingDown,
            "unavailable",
            "daemon is shutting down",
            false,
        ),
        (
            WorkerError::Overloaded,
            "overloaded",
            "too many predictions in flight, retry shortly",
            false,
        ),
    ];
    for (error, kind, message, invalidates) in cases {
        assert_eq!(error.kind(), kind);
        assert_eq!(error.clone().message(), message);
        assert_eq!(error.invalidates_worker(), invalidates);
    }
    assert_eq!(
        StartError::Failed("x".into()).into_worker_error().message(),
        "worker failed to start: x"
    );
    assert_eq!(
        StartError::Timeout(Duration::from_secs(2))
            .clone()
            .into_worker_error()
            .kind(),
        "startup_failed"
    );
}

#[test]
fn ready_frames_are_read_tolerantly() {
    let full = json(
        r#"{"ready": true, "pid": 4321, "model": "m", "checkpoint": "multilingual",
            "device": "mps", "requested_device": "auto", "laya_version": "0.3.4",
            "warmup": ["choice", 1, "score", null, "noul"]}"#,
    );
    let info = WorkerInfo::from_ready(&full);
    assert_eq!(info.model, "m");
    assert_eq!(info.requested_device, "auto");
    assert_eq!(info.laya_version, "0.3.4");
    assert_eq!(info.warmup, ["choice", "score", "noul"]);
    assert_eq!(info.clone().identity(), "4321:mps:multilingual");

    let bare = WorkerInfo::from_ready(&json(r#"{"pid": 4294967303, "device": ""}"#));
    assert_eq!(bare.pid, 7);
    assert_eq!(bare.checkpoint, "english");
    assert_eq!(bare.device, "unknown");
    assert_eq!(bare.model, "");
    assert!(bare.warmup.is_empty());

    let unreported = WorkerInfo::unreported(9);
    assert_eq!(unreported.identity(), "9:unknown:english");
    assert_eq!(unreported.requested_device, "unknown");
}

#[test]
fn ready_faults_are_told_apart() {
    let fault = |text: &str| parse_ready(&json(text)).unwrap_err();
    assert_eq!(fault("[]"), "worker frame is missing ready=true");
    assert_eq!(
        fault(r#"{"ready": "yes"}"#),
        "worker frame is missing ready=true"
    );
    assert_eq!(
        fault(r#"{"ready": false}"#),
        "worker reported that it could not start"
    );
    assert_eq!(
        fault(r#"{"ready": false, "error": {"message": 1}}"#),
        "worker reported that it could not start"
    );
    assert_eq!(
        fault(r#"{"ready": true, "pid": 7, "device": "cpu", "id": 0}"#),
        "ready frame must not carry a request id"
    );
    for pid in ["0", "4294967296", "-1", "1.5", "\"7\""] {
        assert_eq!(
            fault(&format!(
                r#"{{"ready": true, "device": "cpu", "pid": {pid}}}"#
            )),
            "ready frame is missing a valid worker pid"
        );
    }
    assert_eq!(
        fault(r#"{"ready": true, "pid": 7}"#),
        "ready frame is missing the actual device"
    );
    assert!(parse_ready(&json(
        r#"{"ready": true, "pid": 4294967295, "device": "cpu", "id": null}"#
    ))
    .is_ok());
}

fn refusal(text: &str) -> ErrorBody {
    match parse_reply(&json(text)).expect("a reply").body {
        Reply::Refusal(body) => body,
        Reply::Answer(_) => panic!("expected a refusal"),
    }
}

#[test]
fn error_objects_are_read_like_structs() {
    let body = refusal(r#"{"id": "1", "ok": false, "error": {"code": null, "other": 1}}"#);
    assert_eq!(body.code, None);
    assert_eq!(body.message, None);
    assert!(!body.fatal);
    let body = refusal(r#"{"id": "1", "ok": false, "error": {"fatal": true}}"#);
    assert!(body.fatal);
    let body = refusal(r#"{"id": "1", "ok": false, "fatal": true}"#);
    assert!(body.fatal);
    let body = refusal(r#"{"id": "1", "ok": false, "error": ["c", "m"]}"#);
    assert_eq!(body.code.as_deref(), Some("c"));
    assert_eq!(body.message.as_deref(), Some("m"));
    assert!(!body.fatal);
    let body = refusal(r#"{"id": "1", "ok": false, "error": [null, "m", true]}"#);
    assert!(body.fatal);

    let fault = |error: &str| {
        parse_reply(&json(&format!(
            r#"{{"id": "1", "ok": false, "error": {error}}}"#
        )))
        .unwrap_err()
    };
    let cases = [
        ("null", "invalid type: null, expected struct ErrorBody"),
        ("7", "invalid type: integer `7`, expected struct ErrorBody"),
        (
            "-7",
            "invalid type: integer `-7`, expected struct ErrorBody",
        ),
        (
            "1.5",
            "invalid type: floating point `1.5`, expected struct ErrorBody",
        ),
        (
            "\"boom\"",
            "invalid type: string \"boom\", expected struct ErrorBody",
        ),
        (
            "{\"code\": [1], \"fatal\": 1}",
            "invalid type: sequence, expected a string",
        ),
        (
            "{\"message\": {}, \"fatal\": true}",
            "invalid type: map, expected a string",
        ),
        (
            "{\"fatal\": 1, \"message\": 1}",
            "invalid type: integer `1`, expected a boolean",
        ),
        (
            "[]",
            "invalid length 0, expected struct ErrorBody with 3 elements",
        ),
        (
            "[\"c\"]",
            "invalid length 1, expected struct ErrorBody with 3 elements",
        ),
        ("[true]", "invalid type: boolean `true`, expected a string"),
        (
            "[\"c\", \"m\", null]",
            "invalid type: null, expected a boolean",
        ),
        (
            "[\"c\", \"m\", true, 1, 2]",
            "invalid length 5, expected fewer elements in array",
        ),
    ];
    for (error, detail) in cases {
        assert_eq!(fault(error), format!("malformed error object: {detail}"));
    }
}

#[test]
fn refusals_are_mapped_by_their_code() {
    let invalid = refusal(
        r#"{"id": "1", "ok": false, "error": {"code": "invalid_request", "message": "bad"}}"#,
    );
    assert_eq!(invalid.into_worker_error().kind(), "invalid_request");
    let validation = refusal(r#"{"id": "1", "ok": false, "error": {"code": "validation"}}"#);
    let error = validation.into_worker_error();
    assert_eq!(error.kind(), "invalid_request");
    assert_eq!(error.message(), "worker rejected the request");
    let other = refusal(r#"{"id": "1", "ok": false, "error": {"code": "oom", "message": "m"}}"#);
    let error = other.into_worker_error();
    assert_eq!(error.kind(), "worker_failed");
    assert_eq!(error.message(), "worker failed: m");
    let silent = refusal(r#"{"id": "1", "ok": false}"#);
    assert_eq!(
        silent.into_worker_error().message(),
        "worker failed: worker rejected the request"
    );
}

#[test]
fn reply_faults_are_told_apart() {
    let fault = |text: &str| parse_reply(&json(text)).unwrap_err();
    assert_eq!(
        fault(r#"{"id": 1, "ok": true, "result": 1}"#),
        "reply frame has no string id"
    );
    assert_eq!(
        fault(r#"{"id": "1", "ok": 1}"#),
        "reply frame has no boolean ok field"
    );
    assert_eq!(
        fault(r#"{"id": "1", "ok": true}"#),
        "ok reply has no result"
    );
}

#[test]
fn states_are_copied_whole() {
    for state in [
        State::Starting,
        State::Pending("p".into()),
        State::Ready,
        State::Failed("f".into()),
        State::ShuttingDown,
    ] {
        assert_eq!(state.clone(), state);
    }
}
