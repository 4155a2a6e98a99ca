use layad::api::{
    error_response, finish_response, healthz, json_response, method_not_allowed, models, not_found,
    readiness_label, readyz, worker_error_response, Answer, AppState, Readiness, WorkerReport,
};
use layad::codec::{parse_json, render_json};
use layad::config::{BindAddress, Cli, Config, IpAddress};
use layad::json::Json;
use layad::predict::{
    conclude, jev_answer, jev_result, prepare, question_kinds, validate_question, validate_state,
    Body, PredictRequest, Prediction,
};
use layad::time::Duration;
use layad::worker::{State, WorkerError, WorkerInfo};

fn json(text: &str) -> Json {
    parse_json(text).expect("test JSON")
}

fn text(json: &Json) -> String {
    String::from_utf8(render_json(json).expect("rendered")).expect("UTF-8")
}

fn config() -> Config {
    let cli = Cli::defaults("python3".to_string(), "some/model".to_string());
    let bind = BindAddress {
        ip: IpAddress::V4(127, 0, 0, 1),
        port: 8787,
        text: "127.0.0.1:8787".to_string(),
    };
    Config::try_from(cli, Ok(bind)).expect("valid configuration")
}

fn object(text: &str) -> layad::json::JsonObject {
    match json(text) {
        Json::Object(object) => object,
        other => panic!("expected an object, got {other:?}"),
    }
}

fn request(state: &str, questions: &str) -> PredictRequest {
    PredictRequest {
        state: json(state),
        questions: object(questions),
        extra: object("{}"),
    }
}

fn prepared(request: PredictRequest) -> Result<Prediction, Answer> {
    prepare(Body::Request(request), &config(), true)
}

fn error_code(answer: &Answer) -> String {
    answer
        .body
        .get("error")
        .and_then(|error| error.str_field("code"))
        .expect("an error code")
        .to_string()
}

fn error_message(answer: &Answer) -> String {
    answer
        .body
        .get("error")
        .and_then(|error| error.str_field("message"))
        .expect("an error message")
        .to_string()
}

#[test]
fn state_accepts_string_object_and_list() {
    assert!(validate_state(&json(r#""a customer is angry""#)).is_ok());
    assert!(validate_state(&json(r#"{"customer": "angry"}"#)).is_ok());
    assert!(validate_state(&json(r#"[{"customer": "angry"}, {"tier": "gold"}]"#)).is_ok());
    assert!(validate_state(&json(r#""   ""#)).is_err());
    assert!(validate_state(&json("{}")).is_err());
    assert!(validate_state(&json("[]")).is_err());
    assert!(validate_state(&json("7")).is_err());
    // A null state is rendered as "null".
    assert!(validate_state(&json("null")).is_ok());
}

#[test]
fn choice_question_accepts_object_and_list_criteria() {
    let object = json(
        r#"{"type": "choice", "instructions": "refund?", "criteria": {"yes": "full refund", "no": "deny"}}"#,
    );
    assert!(validate_question("refund", &object).is_ok());
    let list =
        json(r#"{"type": "choice", "instructions": "refund?", "criteria": ["yes", "no"]}"#);
    assert!(validate_question("refund", &list).is_ok());
    // `null` leaves a label undescribed and structured values are legal.
    let undescribed = json(
        r#"{"type": "choice", "instructions": "refund?", "criteria": {"refund": null, "cancel": "cancel it"}}"#,
    );
    assert!(validate_question("refund", &undescribed).is_ok());
    let structured = json(
        r#"{"type": "choice", "instructions": "refund?", "criteria": [null, {"level": "high"}]}"#,
    );
    assert!(validate_question("refund", &structured).is_ok());
}

#[test]
fn score_and_noul_questions_validate() {
    let score = json(
        r#"{"type": "score", "instructions": "how urgent?", "criteria": ["low", "medium", "high"]}"#,
    );
    assert!(validate_question("urgency", &score).is_ok());
    let noul = json(r#"{"type": "noul", "instructions": "does the user want a human?"}"#);
    assert!(validate_question("handoff", &noul).is_ok());
    // `instructions` may be any value and a `noul` may carry descriptions with null values.
    let structured = json(
        r#"{"type": "score", "instructions": ["how urgent?"], "criteria": [null, {"level": "high"}]}"#,
    );
    assert!(validate_question("urgency", &structured).is_ok());
    let described = json(
        r#"{"type": "noul", "instructions": {"q": "human?"}, "criteria": {"true": "yes", "false": null}}"#,
    );
    assert!(validate_question("handoff", &described).is_ok());
}

#[test]
fn malformed_questions_are_rejected() {
    let cases: Vec<(Json, &str)> = vec![
        (json(r#""nope""#), "must be an object"),
        (json(r#"{"instructions": "x"}"#), "missing a string"),
        (
            json(r#"{"type": "guess", "instructions": "x"}"#),
            "unsupported type",
        ),
        (
            json(r#"{"type": "choice", "instructions": "x"}"#),
            "missing \"criteria\"",
        ),
        (
            json(r#"{"type": "choice", "instructions": "x", "criteria": []}"#),
            "at least one",
        ),
        (
            json(r#"{"type": "score", "instructions": "x", "criteria": []}"#),
            "at least one",
        ),
        (
            json(r#"{"type": "score", "instructions": "x", "criteria": {"a": 1}}"#),
            "list of ordered levels",
        ),
        (
            json(r#"{"type": "score", "instructions": "x"}"#),
            "missing \"criteria\"",
        ),
        (
            json(r#"{"type": "noul", "criteria": {"true": "yes"}}"#),
            "missing \"instructions\"",
        ),
    ];
    for (value, needle) in cases {
        let err = validate_question("q", &value).unwrap_err();
        assert!(err.contains(needle), "expected {needle:?} in {err:?}");
    }
}

#[test]
fn error_body_shape_is_stable() {
    let response = error_response(400, "invalid_request", "boom");
    assert_eq!(response.status, 400);
    assert_eq!(
        text(&response.body),
        r#"{"error":{"code":"invalid_request","message":"boom"}}"#
    );
}

#[test]
fn question_faults_are_worded_exactly() {
    let fault = |name: &str, question: &str| validate_question(name, &json(question)).unwrap_err();
    assert_eq!(fault(" \t", "{}"), "question names must not be empty");
    assert_eq!(
        fault("q\"", "[]"),
        "question \"q\\\"\" must be an object, got a list"
    );
    assert_eq!(
        fault("q", r#"{"type": 1}"#),
        "question \"q\" is missing a string \"type\""
    );
    assert_eq!(
        fault("q", r#"{"type": "guess"}"#),
        "question \"q\" has unsupported type \"guess\", expected one of choice, score, noul"
    );
    assert_eq!(
        fault("q", r#"{"type": "noul"}"#),
        "question \"q\" is missing \"instructions\""
    );
    assert_eq!(
        fault("q", r#"{"type": "choice", "instructions": null}"#),
        "question \"q\" of type choice is missing \"criteria\""
    );
    assert_eq!(
        fault("q", r#"{"type": "choice", "instructions": null, "criteria": {}}"#),
        "question \"q\" needs at least one choice criterion"
    );
    assert_eq!(
        fault("q", r#"{"type": "choice", "instructions": null, "criteria": true}"#),
        "question \"q\" criteria must be an object or list of option names, got a boolean"
    );
    assert_eq!(
        fault("q", r#"{"type": "score", "instructions": null}"#),
        "question \"q\" of type score is missing \"criteria\""
    );
    assert_eq!(
        fault("q", r#"{"type": "score", "instructions": null, "criteria": []}"#),
        "question \"q\" needs at least one score criterion"
    );
    assert_eq!(
        fault("q", r#"{"type": "score", "instructions": null, "criteria": "x"}"#),
        "question \"q\" criteria must be a list of ordered levels, got a string"
    );
    assert_eq!(
        validate_state(&json("true")).unwrap_err(),
        "state must be a string, object or list, got a boolean"
    );
    assert_eq!(
        validate_state(&json("1.5")).unwrap_err(),
        "state must be a string, object or list, got a number"
    );
    assert_eq!(
        validate_state(&json("\"\\u2003\"")).unwrap_err(),
        "state must not be an empty string"
    );
    assert_eq!(
        validate_state(&json("{}")).unwrap_err(),
        "state object must not be empty"
    );
    assert_eq!(
        validate_state(&json("[]")).unwrap_err(),
        "state list must not be empty"
    );
}

#[test]
fn requests_are_refused_in_order() {
    let noul = r#"{"type": "noul", "instructions": "a?"}"#;
    let answer = prepare(Body::Rejected(413), &config(), true).unwrap_err();
    assert_eq!(answer.status, 413);
    assert_eq!(error_code(&answer), "body_too_large");
    assert_eq!(
        error_message(&answer),
        "request body exceeds the 1048576 byte limit"
    );
    let answer = prepare(Body::Rejected(400), &config(), true).unwrap_err();
    assert_eq!(answer.status, 400);
    assert_eq!(error_code(&answer), "invalid_body");
    assert_eq!(error_message(&answer), "could not read the request body");

    let body = Body::Malformed("missing field `questions`".to_string());
    let answer = prepare(body, &config(), true).unwrap_err();
    assert_eq!(answer.status, 400);
    assert_eq!(error_code(&answer), "invalid_json");
    assert_eq!(
        error_message(&answer),
        "request body is not a valid prediction request: missing field `questions`"
    );

    let answer = prepared(request("42", "{}")).unwrap_err();
    assert_eq!(answer.status, 400);
    assert_eq!(error_code(&answer), "invalid_request");
    assert_eq!(
        error_message(&answer),
        "state must be a string, object or list, got a number"
    );
    let answer = prepared(request("\"x\"", "{}")).unwrap_err();
    assert!(error_message(&answer).contains("at least one"));
    let questions = format!(r#"{{"a": {noul}, "b": {{"type": "guess"}}, "c": 1}}"#);
    let answer = prepared(request("\"x\"", &questions)).unwrap_err();
    assert!(error_message(&answer).starts_with("question \"b\" has unsupported type"));

    // The first fault in the order of the names is reported, whatever came in first.
    let mut faulty = request("\"x\"", "{}");
    faulty.questions.insert("b".to_string(), Json::Null);
    faulty.questions.insert("a".to_string(), Json::Bool(true));
    let answer = prepared(faulty).unwrap_err();
    assert_eq!(
        error_message(&answer),
        "question \"a\" must be an object, got a boolean"
    );

    let mut small = config();
    small.max_questions = 2;
    let questions = format!(r#"{{"a": {noul}, "b": {noul}, "c": {noul}}}"#);
    let answer =
        prepare(Body::Request(request("\"x\"", &questions)), &small, true).unwrap_err();
    assert_eq!(answer.status, 400);
    assert_eq!(error_code(&answer), "invalid_request");
    assert_eq!(
        error_message(&answer),
        "questions contains 3 entries, the limit is 2"
    );

    let valid = request("\"x\"", &format!(r#"{{"a": {noul}}}"#));
    let answer = prepare(Body::Request(valid), &config(), false).unwrap_err();
    assert_eq!(answer.status, 503);
    assert_eq!(error_code(&answer), "unavailable");
    assert_eq!(
        error_message(&answer),
        "the resident model is still loading"
    );
}

#[test]
fn a_full_pool_of_questions_fits_the_defaults() {
    let questions: Vec<String> = (0..64)
        .map(|i| format!(r#""skill_{i}": {{"type": "noul", "instructions": {{"skill": {i}}}}}"#))
        .collect();
    let prediction =
        prepared(request("\"GOAL\"", &format!("{{{}}}", questions.join(",")))).expect("accepted");
    assert_eq!(prediction.kinds.len(), 64);
}

#[test]
fn accepted_requests_go_to_the_worker_whole() {
    let mut extra = request(
        r#"[{"role": "user"}]"#,
        r#"{"b": {"type": "noul", "instructions": "?"},
            "a": {"type": "score", "instructions": null, "criteria": [1]}}"#,
    );
    extra.extra = object(r#"{"model": "laya-rl-agent", "trace_id": 7}"#);
    let prediction = prepared(extra).expect("accepted");
    assert_eq!(
        text(&prediction.params),
        concat(&[
            r#"{"questions":{"a":{"criteria":[1],"instructions":null,"type":"score"},"#,
            r#""b":{"instructions":"?","type":"noul"}},"state":[{"role":"user"}]}"#
        ])
    );
    let mut kinds = prediction.kinds;
    kinds.sort();
    assert_eq!(
        kinds,
        [
            ("a".to_string(), "score".to_string()),
            ("b".to_string(), "noul".to_string())
        ]
    );
    let kinds = question_kinds(&object(r#"{"q": {"type": 5}, "r": 1}"#));
    assert!(kinds.iter().all(|(_, kind)| kind.is_empty()));
}

fn concat(parts: &[&str]) -> String {
    parts.concat()
}

fn kinds() -> Vec<(String, String)> {
    [
        ("intent", "choice"),
        ("urgency", "score"),
        ("human", "noul"),
    ]
    .iter()
    .map(|(name, kind)| (name.to_string(), kind.to_string()))
    .collect()
}

const RESULT: &str = r#"{
    "model": "Laya-rl-agent",
    "answers": {
        "intent": {"type": "choice", "choice": "refund", "confidence": 0.81,
                   "probabilities": {"refund": 0.81}, "action": {"x": 1}},
        "human": {"type": "noul", "noul": 0.25, "confidence": 0.5, "action": {}},
        "unasked": {"type": "noul"}
    },
    "usage": {"input_tokens": 812, "output_tokens": -1, "extra": 3}
}"#;

#[test]
fn replies_are_projected_onto_exact_key_sets() {
    let projected = jev_result(&kinds(), &json(RESULT), "fallback");
    assert_eq!(
        text(&projected),
        concat(&[
            r#"{"answers":{"human":{"noul":0.25,"type":"noul"},"#,
            r#""intent":{"choice":"refund","confidence":0.81,"#,
            r#""probabilities":{"refund":0.81},"type":"choice"},"#,
            r#""urgency":{"confidence":null,"legend":null,"probabilities":null,"#,
            r#""score":null,"type":null}},"#,
            r#""model":"Laya-rl-agent","usage":{"input_tokens":812,"output_tokens":0}}"#
        ])
    );
    let empty = jev_result(&kinds()[2..].to_vec(), &json("null"), "fallback");
    assert_eq!(
        text(&empty),
        concat(&[
            r#"{"answers":{"human":{"noul":null,"type":null}},"model":"fallback","#,
            r#""usage":{"input_tokens":0,"output_tokens":0}}"#
        ])
    );
    let other = json(r#"{"anything": 1}"#);
    assert_eq!(text(&jev_answer("guess", &other)), r#"{"anything":1}"#);
}

#[test]
fn results_are_concluded_on_both_paths() {
    let raw = conclude(&kinds(), Ok(json(RESULT)), false, &config());
    assert_eq!(raw.status, 200);
    assert_eq!(text(&raw.body), text(&json(RESULT)));
    let projected = conclude(&kinds(), Ok(json("{}")), true, &config());
    assert_eq!(projected.status, 200);
    assert_eq!(projected.body.str_field("model"), Some("some/model"));
    for jev_shape in [false, true] {
        let refused = conclude(
            &kinds(),
            Err(WorkerError::InvalidRequest("upstream rejected".into())),
            jev_shape,
            &config(),
        );
        assert_eq!(refused.status, 400);
        assert_eq!(error_code(&refused), "invalid_request");
        assert_eq!(error_message(&refused), "upstream rejected");
    }
}

#[test]
fn worker_errors_have_their_status() {
    let cases: Vec<(WorkerError, u16, &str)> = vec![
        (WorkerError::InvalidRequest("x".into()), 400, "invalid_request"),
        (WorkerError::Overloaded, 429, "overloaded"),
        (WorkerError::Unavailable("x".into()), 503, "unavailable"),
        (WorkerError::ShuttingDown, 503, "unavailable"),
        (WorkerError::StartupFailed("x".into()), 503, "startup_failed"),
        (
            WorkerError::StartupTimeout(Duration::from_secs(1)),
            503,
            "startup_failed",
        ),
        (
            WorkerError::InferenceTimeout(Duration::from_secs(1)),
            504,
            "inference_timeout",
        ),
        (WorkerError::WorkerFailed("x".into()), 502, "worker_failed"),
        (WorkerError::OversizedResponse(1), 502, "oversized_response"),
    ];
    for (error, status, code) in cases {
        let answer = worker_error_response(&error);
        assert_eq!(answer.status, status);
        assert_eq!(error_code(&answer), code);
        assert_eq!(error_message(&answer), error.message());
    }
}

fn info() -> WorkerInfo {
    WorkerInfo {
        pid: 4321,
        model: ".layad/model".to_string(),
        checkpoint: "english".to_string(),
        device: "cpu".to_string(),
        requested_device: "auto".to_string(),
        laya_version: "0.3.4".to_string(),
        warmup: vec!["choice".to_string(), "noul".to_string()],
    }
}

#[test]
fn readiness_is_reported_accurately() {
    let ready = readyz(
        Some(WorkerReport {
            state: State::Ready,
            info: Some(info()),
        }),
        &Readiness::Ready,
    );
    assert_eq!(ready.status, 200);
    assert_eq!(
        text(&ready.body),
        concat(&[
            r#"{"checkpoint":"english","device":"cpu","laya_version":"0.3.4","#,
            r#""model":".layad/model","ready":true,"requested_device":"auto","#,
            r#""warmup":["choice","noul"],"worker_identity":"4321:cpu:english","worker_pid":4321}"#
        ])
    );
    let loading = readyz(None, &Readiness::Failed("x".into()));
    assert_eq!(loading.status, 503);
    assert_eq!(
        text(&loading.body),
        concat(&[
            r#"{"elapsed_state":"failed","message":"the resident model is still loading","#,
            r#""ready":false,"reason":"loading"}"#
        ])
    );
    let cases: Vec<(State, Option<WorkerInfo>, &str, &str)> = vec![
        (
            State::Starting,
            Some(info()),
            "loading",
            "the resident model is still loading",
        ),
        (State::Ready, None, "loading", "worker metadata unavailable"),
        (State::Failed("lost".into()), None, "unavailable", "lost"),
        (State::Pending("later".into()), None, "unavailable", "later"),
        (
            State::ShuttingDown,
            Some(info()),
            "unavailable",
            "daemon is shutting down",
        ),
    ];
    for (state, info, reason, message) in cases {
        let answer = readyz(Some(WorkerReport { state, info }), &Readiness::Loading);
        assert_eq!(answer.status, 503);
        assert_eq!(answer.body.bool_field("ready"), Some(false));
        assert_eq!(answer.body.str_field("reason"), Some(reason));
        assert_eq!(answer.body.str_field("message"), Some(message));
    }
}

#[test]
fn readiness_has_labels() {
    assert_eq!(readiness_label(&Readiness::default()), "loading");
    assert_eq!(readiness_label(&Readiness::Ready), "ready");
    assert_eq!(readiness_label(&Readiness::Failed("x".into())), "failed");
    assert_eq!(readiness_label(&Readiness::Stopping), "stopping");
}

#[test]
fn simple_answers_have_their_shape() {
    assert_eq!(
        text(&healthz("0.1.0", 17).body),
        r#"{"pid":17,"service":"layad","status":"ok","version":"0.1.0"}"#
    );
    assert_eq!(healthz("0.1.0", 17).status, 200);
    assert_eq!(not_found().status, 404);
    assert_eq!(error_code(&not_found()), "not_found");
    assert_eq!(error_message(&not_found()), "unknown path");
    assert_eq!(method_not_allowed().status, 405);
    assert_eq!(error_code(&method_not_allowed()), "method_not_allowed");
    assert_eq!(error_message(&method_not_allowed()), "wrong method");
    let list = models(None, &config());
    assert_eq!(list.status, 200);
    assert_eq!(
        text(&list.body),
        concat(&[
            r#"{"models":[{"description":"the checkpoint resident in this layad daemon","#,
            r#""name":"some/model","release_date":""}]}"#
        ])
    );
    let list = models(Some(&info()), &config());
    assert!(text(&list.body).contains(r#""name":".layad/model""#));
}

#[test]
fn responses_carry_the_rendered_answer() {
    let response = json_response(error_response(404, "not_found", "unknown path"));
    assert_eq!(response.status, 404);
    assert_eq!(
        response.body,
        br#"{"error":{"code":"not_found","message":"unknown path"}}"#
    );
    let fallback = finish_response(200, Err("broken".to_string()));
    assert_eq!(fallback.status, 500);
    assert_eq!(
        fallback.body,
        br#"{"error":{"code":"internal_error","message":"failed to serialize response"}}"#
    );
}

#[test]
fn state_is_loading_until_a_worker_is_attached() {
    let mut state: AppState<u32> = AppState::new(config());
    assert_eq!(state.readiness(), Readiness::Loading);
    assert!(state.worker().is_none());
    state.attach(7);
    assert_eq!(state.readiness(), Readiness::Ready);
    assert_eq!(state.worker(), Some(&7));
    state.set_readiness(Readiness::Failed("lost".into()));
    assert_eq!(state.readiness(), Readiness::Failed("lost".into()));
    assert_eq!(state.worker(), Some(&7));
    assert_eq!(state.config().model, "some/model");
}
