//! HTTP surface: request validation, answers and the JSON error shape.
//!
//! Error bodies are always `{"error":{"code":"...","message":"..."}}` so callers can branch on
//! `code` without parsing prose.

use vstd::prelude::*;
use vstd::slice::slice_to_vec;
use vstd::utf8::decode_utf8;
use vstd::utf8::encode_utf8;
use vstd::utf8::valid_utf8;

use crate::codec::MAX_NESTING;
use crate::codec::parsed;
use crate::codec::readable_within;
use crate::codec::render_json;
use crate::codec::rendered;
use crate::config::Config;
use crate::config::ConfigView;
use crate::json::bool_field;
use crate::json::item_trees;
use crate::json::Json;
use crate::json::JsonObject;
use crate::json::JsonView;
use crate::json::Number;
use crate::json::NumberView;
use crate::session::info_view;
use crate::text::digits;
use crate::text::texts;
use crate::worker::State;
use crate::worker::StateView;
use crate::worker::WorkerError;
use crate::worker::WorkerErrorView;
use crate::worker::WorkerInfo;
use crate::worker::WorkerInfoView;

verus! {

/// Readiness as seen by the HTTP layer.
///
/// The daemon binds its port before the model is loaded so `/healthz` can report liveness
/// during a slow cold start; readiness is tracked here.
#[derive(Debug, PartialEq, Eq)]
pub enum Readiness {
    /// The resident model has not finished loading yet.
    Loading,
    /// The worker loaded the model, warmed up and is attached.
    Ready,
    /// Startup failed or the worker died; the daemon is failing closed.
    Failed(String),
    /// Graceful shutdown in progress.
    Stopping,
}

/// The mathematical reading of a [`Readiness`].
pub enum ReadinessView {
    Loading,
    Ready,
    Failed(Seq<char>),
    Stopping,
}

impl View for Readiness {
    type V = ReadinessView;

    open spec fn view(&self) -> ReadinessView {
        match *self {
            Readiness::Loading => ReadinessView::Loading,
            Readiness::Ready => ReadinessView::Ready,
            Readiness::Failed(reason) => ReadinessView::Failed(reason@),
            Readiness::Stopping => ReadinessView::Stopping,
        }
    }
}

impl Clone for Readiness {
    fn clone(&self) -> (res: Self)
        ensures
            res@ == self@,
    {
        match self {
            Readiness::Loading => Readiness::Loading,
            Readiness::Ready => Readiness::Ready,
            Readiness::Failed(reason) => Readiness::Failed(reason.clone()),
            Readiness::Stopping => Readiness::Stopping,
        }
    }
}

impl Default for Readiness {
    fn default() -> (res: Self)
        ensures
            res@ == ReadinessView::Loading,
    {
        Readiness::Loading
    }
}

/// Application state: readiness, the resident worker once it is ready, and the configuration.
pub struct AppState<W> {
    readiness: Readiness,
    worker: Option<W>,
    config: Config,
}

impl<W> AppState<W> {
    /// What the HTTP layer knows of readiness.
    pub closed spec fn readiness_now(self) -> ReadinessView {
        self.readiness@
    }

    /// The resident worker, once it is ready.
    pub closed spec fn worker_now(self) -> Option<W> {
        self.worker
    }

    /// The configuration.
    pub closed spec fn config_now(self) -> ConfigView {
        self.config@
    }

    /// The state while the model is loading.
    pub fn new(config: Config) -> (res: Self)
        ensures
            res.readiness_now() == ReadinessView::Loading,
            res.worker_now() is None,
            res.config_now() == config@,
    {
        AppState { readiness: Readiness::Loading, worker: None, config }
    }

    pub fn config(&self) -> (res: &Config)
        ensures
            res@ == self.config_now(),
    {
        &self.config
    }

    /// The resident worker, once it is ready.
    pub fn worker(&self) -> (res: Option<&W>)
        ensures
            match res {
                Some(worker) => self.worker_now() == Some(*worker),
                None => self.worker_now() is None,
            },
    {
        match &self.worker {
            Some(worker) => Some(worker),
            None => None,
        }
    }

    pub fn readiness(&self) -> (res: Readiness)
        ensures
            res@ == self.readiness_now(),
    {
        self.readiness.clone()
    }

    /// Publish a ready worker.
    pub fn attach(&mut self, worker: W)
        ensures
            final(self).worker_now() == Some(worker),
            final(self).readiness_now() == ReadinessView::Ready,
            final(self).config_now() == old(self).config_now(),
    {
        self.worker = Some(worker);
        self.set_readiness(Readiness::Ready);
    }

    pub fn set_readiness(&mut self, readiness: Readiness)
        ensures
            final(self).readiness_now() == readiness@,
            final(self).worker_now() == old(self).worker_now(),
            final(self).config_now() == old(self).config_now(),
    {
        self.readiness = readiness;
    }
}

/// An answer to an HTTP request: the status code and the JSON body.
#[derive(Debug)]
pub struct Answer {
    pub status: u16,
    pub body: Json,
}

/// The mathematical reading of an [`Answer`].
pub struct AnswerView {
    pub status: u16,
    pub body: JsonView,
}

impl View for Answer {
    type V = AnswerView;

    open spec fn view(&self) -> AnswerView {
        AnswerView { status: self.status, body: self.body@ }
    }
}

/// An HTTP response with a body of content type `application/json`.
#[derive(Debug)]
pub struct Response {
    pub status: u16,
    pub body: Vec<u8>,
}

/// The mathematical reading of a [`Response`].
pub struct ResponseView {
    pub status: u16,
    pub body: Seq<u8>,
}

impl View for Response {
    type V = ResponseView;

    open spec fn view(&self) -> ResponseView {
        ResponseView { status: self.status, body: self.body@ }
    }
}

/// The content type of every response.
pub const CONTENT_TYPE: &'static str = "application/json";

/// The body of the response where the answer cannot be written as JSON text.
pub const FALLBACK_BODY: &'static str =
    "{\"error\":{\"code\":\"internal_error\",\"message\":\"failed to serialize response\"}}";

/// The response that carries an answer whose body is written as the given text, or cannot be
/// written.
pub open spec fn response_with(status: u16, text: Result<Seq<u8>, Seq<char>>) -> ResponseView {
    match text {
        Ok(body) => ResponseView { status, body },
        Err(_) => ResponseView { status: 500, body: encode_utf8(FALLBACK_BODY@) },
    }
}

/// The response with a body that is at hand, or cannot be written.
pub fn finish_response(status: u16, text: Result<Vec<u8>, String>) -> (res: Response)
    ensures
        res@ == response_with(
            status,
            match text {
                Ok(body) => Ok(body@),
                Err(fault) => Err(fault@),
            },
        ),
{
    match text {
        Ok(body) => Response { status, body },
        Err(_) => Response { status: 500, body: slice_to_vec(FALLBACK_BODY.as_bytes()) },
    }
}

/// Serialize an answer. The response carries its status and its body.
pub fn json_response(answer: Answer) -> (res: Response)
    ensures
        res@ == (ResponseView { status: answer.status, body: rendered(answer.body@) }),
        valid_utf8(res@.body),
        readable_within(answer.body@, MAX_NESTING as nat) ==> parsed(decode_utf8(res@.body))
            == Ok::<JsonView, Seq<char>>(answer.body@),
{
    let text = render_json(&answer.body);
    finish_response(answer.status, text)
}

/// The canonical error body.
pub open spec fn error_tree(code: Seq<char>, message: Seq<char>) -> JsonView {
    JsonView::Object(
        Map::empty().insert(
            "error"@,
            JsonView::Object(
                Map::empty().insert("code"@, JsonView::Text(code)).insert(
                    "message"@,
                    JsonView::Text(message),
                ),
            ),
        ),
    )
}

/// An error answer.
pub open spec fn error_answer(status: u16, code: Seq<char>, message: Seq<char>) -> AnswerView {
    AnswerView { status, body: error_tree(code, message) }
}

/// Canonical JSON error body.
pub fn error_response(status: u16, code: &str, message: &str) -> (res: Answer)
    ensures
        res@ == error_answer(status, code@, message@),
{
    let mut error = JsonObject::new();
    error.insert("code".to_owned(), Json::text(code));
    error.insert("message".to_owned(), Json::text(message));
    let mut body = JsonObject::new();
    body.insert("error".to_owned(), Json::Object(error));
    Answer { status, body: Json::Object(body) }
}

/// The answer to a request for an unknown path.
pub fn not_found() -> (res: Answer)
    ensures
        res@ == error_answer(404, "not_found"@, "unknown path"@),
{
    error_response(404, "not_found", "unknown path")
}

/// The answer to a request with the wrong method.
pub fn method_not_allowed() -> (res: Answer)
    ensures
        res@ == error_answer(405, "method_not_allowed"@, "wrong method"@),
{
    error_response(405, "method_not_allowed", "wrong method")
}

/// A JSON number.
pub open spec fn number_tree(n: nat) -> JsonView {
    JsonView::Number(NumberView::Integer(n as int))
}

fn number(n: u64) -> (res: Json)
    ensures
        res@ == number_tree(n as nat),
{
    Json::Number(Number::Unsigned(n))
}

/// Liveness: the daemon itself is up. Available during model loading.
pub fn healthz(version: &str, pid: u32) -> (res: Answer)
    ensures
        res@ == (AnswerView {
            status: 200,
            body: JsonView::Object(
                Map::empty().insert("status"@, JsonView::Text("ok"@)).insert(
                    "service"@,
                    JsonView::Text("layad"@),
                ).insert("version"@, JsonView::Text(version@)).insert(
                    "pid"@,
                    number_tree(pid as nat),
                ),
            ),
        }),
{
    let mut body = JsonObject::new();
    body.insert("status".to_owned(), Json::text("ok"));
    body.insert("service".to_owned(), Json::text("layad"));
    body.insert("version".to_owned(), Json::text(version));
    body.insert("pid".to_owned(), number(pid as u64));
    Answer { status: 200, body: Json::Object(body) }
}

/// A word for a readiness.
pub open spec fn readiness_name(readiness: ReadinessView) -> Seq<char> {
    match readiness {
        ReadinessView::Loading => "loading"@,
        ReadinessView::Ready => "ready"@,
        ReadinessView::Failed(_) => "failed"@,
        ReadinessView::Stopping => "stopping"@,
    }
}

/// A word for a readiness.
pub fn readiness_label(readiness: &Readiness) -> (res: &'static str)
    ensures
        res@ == readiness_name(readiness@),
{
    match readiness {
        Readiness::Loading => "loading",
        Readiness::Ready => "ready",
        Readiness::Failed(_) => "failed",
        Readiness::Stopping => "stopping",
    }
}

/// A list of JSON strings.
pub open spec fn text_list(items: Seq<Seq<char>>) -> JsonView {
    JsonView::List(Seq::new(items.len(), |i: int| JsonView::Text(items[i])))
}

fn json_texts(items: &Vec<String>) -> (res: Json)
    ensures
        res@ == text_list(texts(items@)),
{
    let mut list: Vec<Json> = Vec::new();
    let mut i: usize = 0;
    while i < items.len()
        invariant
            i <= items@.len(),
            list@.len() == i,
            forall|j: int| 0 <= j < i ==> (#[trigger] list@[j])@ == JsonView::Text(items@[j]@),
        decreases items@.len() - i,
    {
        list.push(Json::text(items[i].as_str()));
        i = i + 1;
    }
    assert(item_trees(list@) =~= text_list(texts(items@))->List_0);
    Json::list(list)
}

/// The body that says that the resident model is ready.
pub open spec fn ready_tree(info: WorkerInfoView) -> JsonView {
    JsonView::Object(
        Map::empty().insert("ready"@, JsonView::Bool(true)).insert(
            "model"@,
            JsonView::Text(info.model),
        ).insert("checkpoint"@, JsonView::Text(info.checkpoint)).insert(
            "device"@,
            JsonView::Text(info.device),
        ).insert("requested_device"@, JsonView::Text(info.requested_device)).insert(
            "laya_version"@,
            JsonView::Text(info.laya_version),
        ).insert("worker_pid"@, number_tree(info.pid as nat)).insert(
            "worker_identity"@,
            JsonView::Text(info.name()),
        ).insert("warmup"@, text_list(info.warmup)),
    )
}

/// The body that says that the resident model is not ready, and why.
pub open spec fn unready_tree(reason: Seq<char>, message: Seq<char>) -> Map<Seq<char>, JsonView> {
    Map::empty().insert("ready"@, JsonView::Bool(false)).insert(
        "reason"@,
        JsonView::Text(reason),
    ).insert("message"@, JsonView::Text(message))
}

fn unready(reason: &str, message: &str) -> (res: JsonObject)
    ensures
        res@ == unready_tree(reason@, message@),
{
    let mut body = JsonObject::new();
    body.insert("ready".to_owned(), Json::Bool(false));
    body.insert("reason".to_owned(), Json::text(reason));
    body.insert("message".to_owned(), Json::text(message));
    body
}

/// The answer about readiness, from what is known of the attached worker, if there is one, and
/// the readiness of the daemon.
pub open spec fn readyz_answer(
    worker: Option<(StateView, Option<WorkerInfoView>)>,
    readiness: ReadinessView,
) -> AnswerView {
    match worker {
        None | Some((StateView::Starting, _)) => AnswerView {
            status: 503,
            body: JsonView::Object(
                unready_tree("loading"@, "the resident model is still loading"@).insert(
                    "elapsed_state"@,
                    JsonView::Text(readiness_name(readiness)),
                ),
            ),
        },
        Some((StateView::Ready, None)) => AnswerView {
            status: 503,
            body: JsonView::Object(unready_tree("loading"@, "worker metadata unavailable"@)),
        },
        Some((StateView::Ready, Some(info))) => AnswerView { status: 200, body: ready_tree(info) },
        Some((StateView::Failed(reason), _)) => AnswerView {
            status: 503,
            body: JsonView::Object(unready_tree("unavailable"@, reason)),
        },
        Some((StateView::Pending(reason), _)) => AnswerView {
            status: 503,
            body: JsonView::Object(unready_tree("unavailable"@, reason)),
        },
        Some((StateView::ShuttingDown, _)) => AnswerView {
            status: 503,
            body: JsonView::Object(unready_tree("unavailable"@, "daemon is shutting down"@)),
        },
    }
}

/// What is known of an attached worker.
#[derive(Debug)]
pub struct WorkerReport {
    pub state: State,
    pub info: Option<WorkerInfo>,
}

/// The mathematical reading of what is known of the worker.
pub open spec fn report_view(report: Option<WorkerReport>) -> Option<
    (StateView, Option<WorkerInfoView>),
> {
    match report {
        Some(report) => Some((report.state@, info_view(report.info))),
        None => None,
    }
}

fn ready_body(info: &WorkerInfo) -> (res: Json)
    ensures
        res@ == ready_tree(info@),
{
    let mut body = JsonObject::new();
    body.insert("ready".to_owned(), Json::Bool(true));
    body.insert("model".to_owned(), Json::text(info.model.as_str()));
    body.insert("checkpoint".to_owned(), Json::text(info.checkpoint.as_str()));
    body.insert("device".to_owned(), Json::text(info.device.as_str()));
    body.insert("requested_device".to_owned(), Json::text(info.requested_device.as_str()));
    body.insert("laya_version".to_owned(), Json::text(info.laya_version.as_str()));
    body.insert("worker_pid".to_owned(), number(info.pid as u64));
    body.insert("worker_identity".to_owned(), Json::Text(info.identity()));
    body.insert("warmup".to_owned(), json_texts(&info.warmup));
    Json::Object(body)
}

/// Readiness: the resident worker loaded the model and warmed up.
pub fn readyz(worker: Option<WorkerReport>, readiness: &Readiness) -> (res: Answer)
    ensures
        res@ == readyz_answer(report_view(worker), readiness@),
{
    let message = "the resident model is still loading";
    match worker {
        None => {
            let mut body = unready("loading", message);
            body.insert("elapsed_state".to_owned(), Json::text(readiness_label(readiness)));
            Answer { status: 503, body: Json::Object(body) }
        },
        Some(report) => match &report.state {
            State::Starting => {
                let mut body = unready("loading", message);
                body.insert("elapsed_state".to_owned(), Json::text(readiness_label(readiness)));
                Answer { status: 503, body: Json::Object(body) }
            },
            State::Ready => match &report.info {
                None => {
                    let body = unready("loading", "worker metadata unavailable");
                    Answer { status: 503, body: Json::Object(body) }
                },
                Some(info) => Answer { status: 200, body: ready_body(info) },
            },
            State::Failed(reason) | State::Pending(reason) => {
                let body = unready("unavailable", reason.as_str());
                Answer { status: 503, body: Json::Object(body) }
            },
            State::ShuttingDown => {
                let body = unready("unavailable", "daemon is shutting down");
                Answer { status: 503, body: Json::Object(body) }
            },
        },
    }
}

/// The model that this daemon keeps resident: what the worker reports, else what is configured.
pub open spec fn model_name(info: Option<WorkerInfoView>, config: ConfigView) -> Seq<char> {
    match info {
        Some(info) => info.model,
        None => config.model,
    }
}

/// The list of the one model that this daemon keeps resident.
pub open spec fn models_tree(name: Seq<char>) -> JsonView {
    JsonView::Object(
        Map::empty().insert(
            "models"@,
            JsonView::List(
                seq![
                    JsonView::Object(
                        Map::empty().insert("name"@, JsonView::Text(name)).insert(
                            "description"@,
                            JsonView::Text("the checkpoint resident in this layad daemon"@),
                        ).insert("release_date"@, JsonView::Text(""@)),
                    ),
                ],
            ),
        ),
    )
}

/// The model list, with the one checkpoint this daemon keeps resident.
pub fn models(info: Option<&WorkerInfo>, config: &Config) -> (res: Answer)
    ensures
        res@ == (AnswerView {
            status: 200,
            body: models_tree(
                model_name(
                    match info {
                        Some(info) => Some(info@),
                        None => None,
                    },
                    config@,
                ),
            ),
        }),
{
    let name = match info {
        Some(info) => info.model.as_str(),
        None => config.model.as_str(),
    };
    let mut model = JsonObject::new();
    model.insert("name".to_owned(), Json::text(name));
    model.insert(
        "description".to_owned(),
        Json::text("the checkpoint resident in this layad daemon"),
    );
    // A local checkpoint path has no release date to report.
    model.insert("release_date".to_owned(), Json::text(""));
    let mut list: Vec<Json> = Vec::new();
    list.push(Json::Object(model));
    assert(item_trees(list@) =~= seq![list@[0]@]);
    let mut body = JsonObject::new();
    body.insert("models".to_owned(), Json::list(list));
    Answer { status: 200, body: Json::Object(body) }
}

/// The status code for an error of the worker.
pub open spec fn error_status(error: WorkerErrorView) -> u16 {
    match error {
        WorkerErrorView::InvalidRequest(_) => 400,
        WorkerErrorView::Overloaded => 429,
        WorkerErrorView::Unavailable(_) | WorkerErrorView::ShuttingDown => 503,
        WorkerErrorView::StartupFailed(_) | WorkerErrorView::StartupTimeout(_) => 503,
        WorkerErrorView::InferenceTimeout(_) => 504,
        WorkerErrorView::WorkerFailed(_) | WorkerErrorView::OversizedResponse(_) => 502,
    }
}

/// The answer to a request that the worker did not serve.
pub fn worker_error_response(error: &WorkerError) -> (res: Answer)
    ensures
        res@ == error_answer(error_status(error@), error@.code(), error@.text()),
{
    let status: u16 = match error {
        WorkerError::InvalidRequest(_) => 400,
        WorkerError::Overloaded => 429,
        WorkerError::Unavailable(_) | WorkerError::ShuttingDown => 503,
        WorkerError::StartupFailed(_) | WorkerError::StartupTimeout(_) => 503,
        WorkerError::InferenceTimeout(_) => 504,
        WorkerError::WorkerFailed(_) | WorkerError::OversizedResponse(_) => 502,
    };
    error_response(status, error.kind(), error.message().as_str())
}

/// An error answer has an `error` object with `code` and `message`, and nothing else.
pub proof fn lemma_error_body_shape(code: Seq<char>, message: Seq<char>)
    ensures
        error_tree(code, message) matches JsonView::Object(fields) && {
            &&& fields.dom() =~= set!["error"@]
            &&& fields["error"@] matches JsonView::Object(error) && {
                &&& error.dom() =~= set!["code"@, "message"@]
                &&& error["code"@] == JsonView::Text(code)
                &&& error["message"@] == JsonView::Text(message)
            }
        },
{
    reveal_strlit("code");
    reveal_strlit("message");
    assert("code"@.len() != "message"@.len());
    let error = Map::empty().insert("code"@, JsonView::Text(code)).insert(
        "message"@,
        JsonView::Text(message),
    );
    assert(error.dom() =~= set!["code"@, "message"@]);
    let fields = Map::empty().insert("error"@, JsonView::Object(error));
    assert(fields.dom() =~= set!["error"@]);
}

/// Readiness is reported exactly when a worker is attached, is ready and has told about
/// itself.
pub proof fn lemma_readyz_is_accurate(
    worker: Option<(StateView, Option<WorkerInfoView>)>,
    readiness: ReadinessView,
)
    ensures
        readyz_answer(worker, readiness).status == 200 <==> (worker matches Some((state, info))
            && state is Ready && info is Some),
        readyz_answer(worker, readiness).status != 200 ==> readyz_answer(worker, readiness).status
            == 503,
        bool_field(readyz_answer(worker, readiness).body, "ready"@) == Some(
            readyz_answer(worker, readiness).status == 200,
        ),
{
    reveal_strlit("ready");
    reveal_strlit("reason");
    reveal_strlit("message");
    reveal_strlit("elapsed_state");
    reveal_strlit("model");
    reveal_strlit("checkpoint");
    reveal_strlit("device");
    reveal_strlit("requested_device");
    reveal_strlit("laya_version");
    reveal_strlit("worker_pid");
    reveal_strlit("worker_identity");
    reveal_strlit("warmup");
    let key = "ready"@;
    assert(key[0] == 'r' && "model"@[0] == 'm');
    assert(key != "reason"@ && key != "message"@ && key != "elapsed_state"@) by {
        assert(key.len() == 5);
    }
    assert(key != "model"@ && key != "checkpoint"@ && key != "device"@) by {
        assert(key.len() == 5);
    }
    assert(key != "requested_device"@ && key != "laya_version"@ && key != "warmup"@);
    assert(key != "worker_pid"@ && key != "worker_identity"@);
}

/// Whether an answer is an error with this status, code and message: an object of exactly an
/// `error` object, which has exactly `code` and `message`.
pub open spec fn is_error(
    answer: AnswerView,
    status: u16,
    code: Seq<char>,
    message: Seq<char>,
) -> bool {
    &&& answer.status == status
    &&& answer.body matches JsonView::Object(fields) && {
        &&& fields.dom() == set!["error"@]
        &&& fields["error"@] matches JsonView::Object(error) && {
            &&& error.dom() == set!["code"@, "message"@]
            &&& error["code"@] == JsonView::Text(code)
            &&& error["message"@] == JsonView::Text(message)
        }
    }
}

/// Every error answer has the one shape of errors, with its status, code and message.
pub proof fn lemma_errors_have_one_shape(status: u16, code: Seq<char>, message: Seq<char>)
    ensures
        is_error(error_answer(status, code, message), status, code, message),
{
    lemma_error_body_shape(code, message);
    let fields = error_tree(code, message)->Object_0;
    assert(fields.dom() =~= set!["error"@]);
    assert((fields["error"@]->Object_0).dom() =~= set!["code"@, "message"@]);
}

/// The status tells whose fault an error is: the request's, the load's, or the worker's, which
/// is not there, late or broken.
pub proof fn lemma_error_statuses(error: WorkerErrorView)
    ensures
        error is InvalidRequest <==> error_status(error) == 400,
        error is Overloaded <==> error_status(error) == 429,
        error is WorkerFailed || error is OversizedResponse <==> error_status(error) == 502,
        error is Unavailable || error is ShuttingDown || error is StartupFailed
            || error is StartupTimeout <==> error_status(error) == 503,
        error is InferenceTimeout <==> error_status(error) == 504,
{
}

/// A ready worker that has told about itself is reported by exactly what it told.
pub proof fn lemma_ready_answer_tells_the_worker(info: WorkerInfoView, readiness: ReadinessView)
    ensures
        ({
            let answer = readyz_answer(Some((StateView::Ready, Some(info))), readiness);
            &&& answer.status == 200
            &&& answer.body matches JsonView::Object(fields) && {
                &&& fields.dom() == set![
                    "ready"@,
                    "model"@,
                    "checkpoint"@,
                    "device"@,
                    "requested_device"@,
                    "laya_version"@,
                    "worker_pid"@,
                    "worker_identity"@,
                    "warmup"@,
                ]
                &&& fields["ready"@] == JsonView::Bool(true)
                &&& fields["model"@] == JsonView::Text(info.model)
                &&& fields["checkpoint"@] == JsonView::Text(info.checkpoint)
                &&& fields["device"@] == JsonView::Text(info.device)
                &&& fields["requested_device"@] == JsonView::Text(info.requested_device)
                &&& fields["laya_version"@] == JsonView::Text(info.laya_version)
                &&& fields["worker_pid"@] == JsonView::Number(
                    NumberView::Integer(info.pid as int),
                )
                &&& fields["worker_identity"@] == JsonView::Text(
                    digits(info.pid as nat) + ":"@ + info.device + ":"@ + info.checkpoint,
                )
                &&& fields["warmup"@] matches JsonView::List(warmup) && {
                    &&& warmup.len() == info.warmup.len()
                    &&& forall|i: int|
                        0 <= i < warmup.len() ==> #[trigger] warmup[i] == JsonView::Text(
                            info.warmup[i],
                        )
                }
            }
        }),
{
    reveal_strlit("ready");
    reveal_strlit("model");
    reveal_strlit("checkpoint");
    reveal_strlit("device");
    reveal_strlit("requested_device");
    reveal_strlit("laya_version");
    reveal_strlit("worker_pid");
    reveal_strlit("worker_identity");
    reveal_strlit("warmup");
    assert("ready"@.len() == 5 && "model"@.len() == 5 && "checkpoint"@.len() == 10);
    assert("device"@.len() == 6 && "requested_device"@.len() == 16 && "laya_version"@.len() == 12);
    assert("worker_pid"@.len() == 10 && "worker_identity"@.len() == 15 && "warmup"@.len() == 6);
    assert("ready"@[0] == 'r' && "model"@[0] == 'm');
    assert("checkpoint"@[0] == 'c' && "worker_pid"@[0] == 'w');
    assert("device"@[0] == 'd' && "warmup"@[0] == 'w');
    let answer = readyz_answer(Some((StateView::Ready, Some(info))), readiness);
    let fields = answer.body->Object_0;
    assert(fields.dom() =~= set![
        "ready"@,
        "model"@,
        "checkpoint"@,
        "device"@,
        "requested_device"@,
        "laya_version"@,
        "worker_pid"@,
        "worker_identity"@,
        "warmup"@,
    ]);
}

/// A worker that is not ready is reported with the reason: `loading` while there is none or it is
/// starting, else `unavailable` with what is known of why.
pub proof fn lemma_unready_answer_tells_why(
    worker: Option<(StateView, Option<WorkerInfoView>)>,
    readiness: ReadinessView,
)
    requires
        !(worker matches Some((state, info)) && state is Ready && info is Some),
    ensures
        ({
            let answer = readyz_answer(worker, readiness);
            let loading = worker is None || (worker->0).0 is Starting || (worker->0).0 is Ready;
            &&& answer.status == 503
            &&& answer.body matches JsonView::Object(fields) && {
                &&& fields.contains_key("ready"@) && fields["ready"@] == JsonView::Bool(false)
                &&& fields.contains_key("reason"@) && fields["reason"@] == JsonView::Text(
                    if loading {
                        "loading"@
                    } else {
                        "unavailable"@
                    },
                )
                &&& fields.contains_key("message"@) && fields["message"@] is Text
                &&& worker matches Some((state, _)) ==> match state {
                    StateView::Failed(reason) | StateView::Pending(reason) => fields["message"@]
                        == JsonView::Text(reason),
                    StateView::ShuttingDown => fields["message"@] == JsonView::Text(
                        "daemon is shutting down"@,
                    ),
                    _ => true,
                }
                &&& worker is None || (worker->0).0 is Starting ==> {
                    &&& fields["message"@] == JsonView::Text("the resident model is still loading"@)
                    &&& fields.contains_key("elapsed_state"@)
                    &&& fields["elapsed_state"@] == JsonView::Text(
                        match readiness {
                            ReadinessView::Loading => "loading"@,
                            ReadinessView::Ready => "ready"@,
                            ReadinessView::Failed(_) => "failed"@,
                            ReadinessView::Stopping => "stopping"@,
                        },
                    )
                }
            }
        }),
{
    reveal_strlit("ready");
    reveal_strlit("reason");
    reveal_strlit("message");
    reveal_strlit("elapsed_state");
    assert("ready"@.len() == 5 && "reason"@.len() == 6 && "message"@.len() == 7);
    assert("elapsed_state"@.len() == 13);
}

/// The model list names the one model: the one that the worker reports, else the configured one.
pub proof fn lemma_models_name_the_resident_one(info: Option<WorkerInfoView>, config: ConfigView)
    ensures
        models_tree(model_name(info, config)) matches JsonView::Object(fields) && {
            &&& fields.dom() == set!["models"@]
            &&& fields["models"@] matches JsonView::List(list) && {
                &&& list.len() == 1
                &&& list[0] matches JsonView::Object(model) && {
                    &&& model.dom() == set!["name"@, "description"@, "release_date"@]
                    &&& model["name"@] == JsonView::Text(
                        match info {
                            Some(info) => info.model,
                            None => config.model,
                        },
                    )
                    &&& model["description"@] == JsonView::Text(
                        "the checkpoint resident in this layad daemon"@,
                    )
                    &&& model["release_date"@] == JsonView::Text(""@)
                }
            }
        },
{
    reveal_strlit("name");
    reveal_strlit("description");
    reveal_strlit("release_date");
    assert("name"@.len() == 4 && "description"@.len() == 11 && "release_date"@.len() == 12);
    let fields = models_tree(model_name(info, config))->Object_0;
    assert(fields.dom() =~= set!["models"@]);
    let model = (fields["models"@]->List_0)[0]->Object_0;
    assert(model.dom() =~= set!["name"@, "description"@, "release_date"@]);
}

/// A response carries the text at hand with the status of the answer; only where there is none
/// is it an internal error.
pub proof fn lemma_response_carries_the_text(status: u16, body: Seq<u8>, fault: Seq<char>)
    ensures
        response_with(status, Ok(body)).status == status,
        response_with(status, Ok(body)).body == body,
        response_with(status, Err(fault)).status == 500,
{
}

} // verus!
