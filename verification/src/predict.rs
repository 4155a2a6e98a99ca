//! Prediction requests: validation, what goes to the worker, and how its result is answered.

use vstd::prelude::*;

use crate::api::error_answer;
use crate::api::error_response;
use crate::api::error_status;
use crate::api::error_tree;
use crate::api::is_error;
use crate::api::lemma_errors_have_one_shape;
use crate::api::number_tree;
use crate::api::worker_error_response;
use crate::api::Answer;
use crate::api::AnswerView;
use crate::config::Config;
use crate::config::ConfigView;
use crate::json::by_name;
use crate::json::distinct_names;
use crate::json::field;
use crate::json::fields_of;
use crate::json::lemma_fields_of;
use crate::json::lemma_fields_push;
use crate::json::lemma_last_value_stays;
use crate::json::NumberView;
use crate::json::text_field;
use crate::json::unsigned_field;
use crate::json::Json;
use crate::json::JsonObject;
use crate::json::JsonView;
use crate::json::Number;
use crate::session::LifecycleView;
use crate::session::OutcomeView;
use crate::supervisor::admission_fault;
use crate::supervisor::ended_life;
use crate::text::decimal;
use crate::text::digits;
use crate::text::is_blank;
use crate::text::is_blank_text;
use crate::text::is_white_space;
use crate::text::join2;
use crate::text::join3;
use crate::text::quoted;
use crate::text::quoted_text;
use crate::text::same_text;
use crate::worker::text_or_empty;
use crate::worker::WorkerError;
use crate::worker::WorkerErrorView;

verus! {

/// Prediction request: `{"state": ..., "questions": {...}}`.
///
/// Top-level properties that are not used, such as `model` and `trace_id`, are accepted and
/// land in `extra`.
#[derive(Debug)]
pub struct PredictRequest {
    pub state: Json,
    pub questions: JsonObject,
    pub extra: JsonObject,
}

/// The mathematical reading of a [`PredictRequest`]; the questions stand in the order of their
/// names.
pub struct PredictRequestView {
    pub state: JsonView,
    pub questions: Seq<(Seq<char>, JsonView)>,
    pub extra: Map<Seq<char>, JsonView>,
}

impl View for PredictRequest {
    type V = PredictRequestView;

    open spec fn view(&self) -> PredictRequestView {
        PredictRequestView {
            state: self.state@,
            questions: by_name(self.questions@),
            extra: self.extra@,
        }
    }
}

/// Words for what a JSON value is.
pub open spec fn kind_name(tree: JsonView) -> Seq<char> {
    match tree {
        JsonView::Null => "null"@,
        JsonView::Bool(_) => "a boolean"@,
        JsonView::Number(_) => "a number"@,
        JsonView::Text(_) => "a string"@,
        JsonView::List(_) => "a list"@,
        JsonView::Object(_) => "an object"@,
    }
}

/// Words for what a JSON value is.
pub fn kind_of(value: &Json) -> (res: &'static str)
    ensures
        res@ == kind_name(value@),
{
    match value {
        Json::Null => "null",
        Json::Bool(_) => "a boolean",
        Json::Number(_) => "a number",
        Json::Text(_) => "a string",
        Json::List(_) => "a list",
        Json::Object(_) => "an object",
    }
}

/// Whether a JSON value is a list or an object that holds nothing.
pub open spec fn is_hollow(tree: JsonView) -> bool {
    match tree {
        JsonView::List(items) => items.len() == 0,
        JsonView::Object(fields) => fields == Map::<Seq<char>, JsonView>::empty(),
        _ => false,
    }
}

fn hollow(value: &Json) -> (res: bool)
    ensures
        res == is_hollow(value@),
{
    match value {
        Json::List(items) => {
            proof {
                Json::lemma_list_tree(*items);
            }
            items.len() == 0
        },
        Json::Object(object) => object.is_empty(),
        _ => false,
    }
}

/// What is wrong with the state of a request, if anything.
pub open spec fn state_fault(tree: JsonView) -> Option<Seq<char>> {
    match tree {
        JsonView::Null => None,
        JsonView::Text(text) => if is_blank_text(text) {
            Some("state must not be an empty string"@)
        } else {
            None
        },
        JsonView::Object(_) => if is_hollow(tree) {
            Some("state object must not be empty"@)
        } else {
            None
        },
        JsonView::List(_) => if is_hollow(tree) {
            Some("state list must not be empty"@)
        } else {
            None
        },
        _ => Some("state must be a string, object or list, got "@ + kind_name(tree)),
    }
}

/// Validate the state of a request.
pub fn validate_state(state: &Json) -> (res: Result<(), String>)
    ensures
        match res {
            Ok(_) => state_fault(state@) is None,
            Err(fault) => state_fault(state@) == Some(fault@),
        },
{
    match state {
        Json::Null => Ok(()),
        Json::Text(text) => if is_blank(text.as_str()) {
            Err("state must not be an empty string".to_owned())
        } else {
            Ok(())
        },
        Json::Object(_) => if hollow(state) {
            Err("state object must not be empty".to_owned())
        } else {
            Ok(())
        },
        Json::List(_) => if hollow(state) {
            Err("state list must not be empty".to_owned())
        } else {
            Ok(())
        },
        _ => Err(join2("state must be a string, object or list, got ", kind_of(state))),
    }
}

/// Whether questions of this type can be asked.
pub open spec fn is_question_type(kind: Seq<char>) -> bool {
    kind == "choice"@ || kind == "score"@ || kind == "noul"@
}

/// Something that is wrong with the question `name`.
pub open spec fn of_question(name: Seq<char>, fault: Seq<char>) -> Seq<char> {
    "question "@ + quoted_text(name) + fault
}

/// What is wrong with the criteria of a question, if anything.
pub open spec fn criteria_fault(kind: Seq<char>, criteria: Option<JsonView>) -> Option<Seq<char>> {
    if kind == "choice"@ {
        match criteria {
            None => Some(" of type choice is missing \"criteria\""@),
            Some(tree) => if is_hollow(tree) {
                Some(" needs at least one choice criterion"@)
            } else if tree is Object || tree is List {
                None
            } else {
                Some(
                    " criteria must be an object or list of option names, got "@ + kind_name(tree),
                )
            },
        }
    } else if kind == "score"@ {
        match criteria {
            None => Some(" of type score is missing \"criteria\""@),
            Some(tree) => if !(tree is List) {
                Some(" criteria must be a list of ordered levels, got "@ + kind_name(tree))
            } else if is_hollow(tree) {
                Some(" needs at least one score criterion"@)
            } else {
                None
            },
        }
    } else {
        None
    }
}

/// What is wrong with the question `name`, if anything.
pub open spec fn question_fault(name: Seq<char>, tree: JsonView) -> Option<Seq<char>> {
    if is_blank_text(name) {
        Some("question names must not be empty"@)
    } else if !(tree is Object) {
        Some(of_question(name, " must be an object, got "@ + kind_name(tree)))
    } else {
        match text_field(tree, "type"@) {
            None => Some(of_question(name, " is missing a string \"type\""@)),
            Some(kind) => if !is_question_type(kind) {
                Some(
                    of_question(
                        name,
                        " has unsupported type "@ + quoted_text(kind)
                            + ", expected one of choice, score, noul"@,
                    ),
                )
            } else if field(tree, "instructions"@) is None {
                Some(of_question(name, " is missing \"instructions\""@))
            } else {
                match criteria_fault(kind, field(tree, "criteria"@)) {
                    Some(fault) => Some(of_question(name, fault)),
                    None => None,
                }
            },
        }
    }
}

fn about_question(name: &str, fault: &str) -> (res: String)
    ensures
        res@ == of_question(name@, fault@),
{
    join3("question ", quoted(name).as_str(), fault)
}

fn check_criteria(kind: &str, criteria: Option<&Json>) -> (res: Option<String>)
    ensures
        ({
            let fault = criteria_fault(
                kind@,
                match criteria {
                    Some(value) => Some(value@),
                    None => None,
                },
            );
            match res {
                Some(text) => fault == Some(text@),
                None => fault is None,
            }
        }),
{
    if same_text(kind, "choice") {
        match criteria {
            None => Some(" of type choice is missing \"criteria\"".to_owned()),
            Some(value) => if hollow(value) {
                Some(" needs at least one choice criterion".to_owned())
            } else {
                match value {
                    Json::Object(_) | Json::List(_) => None,
                    _ => Some(
                        join2(
                            " criteria must be an object or list of option names, got ",
                            kind_of(value),
                        ),
                    ),
                }
            },
        }
    } else if same_text(kind, "score") {
        match criteria {
            None => Some(" of type score is missing \"criteria\"".to_owned()),
            Some(value) => match value {
                Json::List(_) => if hollow(value) {
                    Some(" needs at least one score criterion".to_owned())
                } else {
                    None
                },
                _ => Some(
                    join2(" criteria must be a list of ordered levels, got ", kind_of(value)),
                ),
            },
        }
    } else {
        None
    }
}

/// Validate one named question, so malformed requests are rejected with a clear message.
pub fn validate_question(name: &str, question: &Json) -> (res: Result<(), String>)
    ensures
        match res {
            Ok(_) => question_fault(name@, question@) is None,
            Err(fault) => question_fault(name@, question@) == Some(fault@),
        },
{
    if is_blank(name) {
        return Err("question names must not be empty".to_owned());
    }
    match question {
        Json::Object(_) => {},
        _ => {
            let fault = join2(" must be an object, got ", kind_of(question));
            return Err(about_question(name, fault.as_str()));
        },
    }
    let kind = match question.str_field("type") {
        Some(kind) => kind,
        None => return Err(about_question(name, " is missing a string \"type\"")),
    };
    let supported: bool = same_text(kind, "choice") || same_text(kind, "score") || same_text(
        kind,
        "noul",
    );
    if !supported {
        let fault = join3(
            " has unsupported type ",
            quoted(kind).as_str(),
            ", expected one of choice, score, noul",
        );
        return Err(about_question(name, fault.as_str()));
    }
    if question.get("instructions").is_none() {
        return Err(about_question(name, " is missing \"instructions\""));
    }
    match check_criteria(kind, question.get("criteria")) {
        Some(fault) => Err(about_question(name, fault.as_str())),
        None => Ok(()),
    }
}

/// What is wrong with the first question that is not in order, if there is one.
pub open spec fn questions_fault(questions: Seq<(Seq<char>, JsonView)>) -> Option<Seq<char>>
    decreases questions.len(),
{
    if questions.len() == 0 {
        None
    } else {
        match question_fault(questions[0].0, questions[0].1) {
            Some(fault) => Some(fault),
            None => questions_fault(questions.skip(1)),
        }
    }
}

/// What is wrong with a request, if anything.
pub open spec fn request_fault(request: PredictRequestView, max_questions: nat) -> Option<
    Seq<char>,
> {
    let count = request.questions.len();
    if state_fault(request.state) is Some {
        state_fault(request.state)
    } else if count == 0 {
        Some("questions must contain at least one named question"@)
    } else if count > max_questions {
        Some(
            "questions contains "@ + digits(count) + " entries, the limit is "@ + digits(
                max_questions,
            ),
        )
    } else {
        questions_fault(request.questions)
    }
}

/// Validate a request.
pub fn validate_request(request: &PredictRequest, max_questions: usize) -> (res: Result<
    (),
    String,
>)
    ensures
        match res {
            Ok(_) => request_fault(request@, max_questions as nat) is None,
            Err(fault) => request_fault(request@, max_questions as nat) == Some(fault@),
        },
{
    match validate_state(&request.state) {
        Ok(_) => {},
        Err(fault) => return Err(fault),
    }
    let count: usize = request.questions.len();
    if count == 0 {
        return Err("questions must contain at least one named question".to_owned());
    }
    if count > max_questions {
        let start = join3(
            "questions contains ",
            decimal(count as u64).as_str(),
            " entries, the limit is ",
        );
        return Err(join2(start.as_str(), decimal(max_questions as u64).as_str()));
    }
    let ghost all = request@.questions;
    let mut i: usize = 0;
    assert(all.skip(0) =~= all);
    while i < count
        invariant
            i <= count,
            count == all.len(),
            all == request.questions.pairs(),
            all == request@.questions,
            state_fault(request@.state) is None,
            0 < count <= max_questions,
            questions_fault(all) == questions_fault(all.skip(i as int)),
        decreases count - i,
    {
        let ghost rest = all.skip(i as int);
        assert(rest[0] == all[i as int]);
        assert(rest.skip(1) =~= all.skip(i + 1));
        match validate_question(request.questions.name_at(i).as_str(), request.questions.value_at(i)) {
            Ok(_) => {},
            Err(fault) => return Err(fault),
        }
        i = i + 1;
    }
    Ok(())
}

/// The names of the questions with their declared types.
pub open spec fn kinds_of(questions: Seq<(Seq<char>, JsonView)>) -> Seq<(Seq<char>, Seq<char>)> {
    Seq::new(
        questions.len(),
        |i: int| (questions[i].0, text_or_empty(questions[i].1, "type"@)),
    )
}

/// The names and types in a list.
pub open spec fn kinds_view(kinds: Seq<(String, String)>) -> Seq<(Seq<char>, Seq<char>)> {
    Seq::new(kinds.len(), |i: int| (kinds[i].0@, kinds[i].1@))
}

/// Question names with their declared types, captured before the request is forwarded, so the
/// reply can be projected onto per-question answer types.
pub fn question_kinds(questions: &JsonObject) -> (res: Vec<(String, String)>)
    ensures
        kinds_view(res@) == kinds_of(by_name(questions@)),
        fields_of(by_name(questions@)) == questions@,
{
    let mut kinds: Vec<(String, String)> = Vec::new();
    let total: usize = questions.len();
    let mut i: usize = 0;
    while i < total
        invariant
            i <= total,
            total == questions.pairs().len(),
            kinds@.len() == i,
            forall|j: int|
                0 <= j < i ==> ((#[trigger] kinds@[j]).0@, kinds@[j].1@) == (
                    questions.pairs()[j].0,
                    text_or_empty(questions.pairs()[j].1, "type"@),
                ),
        decreases questions.pairs().len() - i,
    {
        let kind = match questions.value_at(i).str_field("type") {
            Some(kind) => kind.to_owned(),
            None => String::new(),
        };
        assert(kind@ =~= text_or_empty(questions.pairs()[i as int].1, "type"@));
        kinds.push((questions.name_at(i).clone(), kind));
        i = i + 1;
    }
    assert(questions.fields() == fields_of(questions.pairs()));
    assert(kinds_view(kinds@) =~= kinds_of(questions.pairs()));
    kinds
}

/// What the worker is asked: the state and the questions.
pub open spec fn params_tree(request: PredictRequestView) -> JsonView {
    JsonView::Object(
        Map::empty().insert("state"@, request.state).insert(
            "questions"@,
            JsonView::Object(fields_of(request.questions)),
        ),
    )
}

/// What came in as the body of a request.
#[derive(Debug)]
pub enum Body {
    /// It was refused, with this status code.
    Rejected(u16),
    /// It is no prediction request, for this reason.
    Malformed(String),
    /// A prediction request.
    Request(PredictRequest),
}

/// The mathematical reading of a [`Body`].
pub enum BodyView {
    Rejected(u16),
    Malformed(Seq<char>),
    Request(PredictRequestView),
}

impl View for Body {
    type V = BodyView;

    open spec fn view(&self) -> BodyView {
        match *self {
            Body::Rejected(status) => BodyView::Rejected(status),
            Body::Malformed(fault) => BodyView::Malformed(fault@),
            Body::Request(request) => BodyView::Request(request@),
        }
    }
}

/// A prediction that goes to the worker.
#[derive(Debug)]
pub struct Prediction {
    /// The names of the questions with their declared types.
    pub kinds: Vec<(String, String)>,
    /// What the worker is asked.
    pub params: Json,
}

/// The mathematical reading of a [`Prediction`].
pub struct PredictionView {
    pub kinds: Seq<(Seq<char>, Seq<char>)>,
    pub params: JsonView,
}

impl View for Prediction {
    type V = PredictionView;

    open spec fn view(&self) -> PredictionView {
        PredictionView { kinds: kinds_view(self.kinds@), params: self.params@ }
    }
}

/// The answer to a request whose body was refused.
pub open spec fn rejected_body(status: u16, max_body_bytes: nat) -> AnswerView {
    if status == 413 {
        error_answer(
            status,
            "body_too_large"@,
            "request body exceeds the "@ + digits(max_body_bytes) + " byte limit"@,
        )
    } else {
        error_answer(status, "invalid_body"@, "could not read the request body"@)
    }
}

/// What becomes of a request: a prediction for the worker, or an answer right away.
pub open spec fn prepared(body: BodyView, config: ConfigView, has_worker: bool) -> Result<
    PredictionView,
    AnswerView,
> {
    match body {
        BodyView::Rejected(status) => Err(rejected_body(status, config.max_body_bytes as nat)),
        BodyView::Malformed(fault) => Err(
            error_answer(
                400,
                "invalid_json"@,
                "request body is not a valid prediction request: "@ + fault,
            ),
        ),
        BodyView::Request(request) => match request_fault(request, config.max_questions as nat) {
            Some(fault) => Err(error_answer(400, "invalid_request"@, fault)),
            None => if has_worker {
                Ok(
                    PredictionView {
                        kinds: kinds_of(request.questions),
                        params: params_tree(request),
                    },
                )
            } else {
                Err(
                    error_answer(
                        503,
                        "unavailable"@,
                        "the resident model is still loading"@,
                    ),
                )
            },
        },
    }
}

fn refuse_body(status: u16, max_body_bytes: usize) -> (res: Answer)
    ensures
        res@ == rejected_body(status, max_body_bytes as nat),
{
    if status == 413 {
        let message = join3(
            "request body exceeds the ",
            decimal(max_body_bytes as u64).as_str(),
            " byte limit",
        );
        error_response(status, "body_too_large", message.as_str())
    } else {
        error_response(status, "invalid_body", "could not read the request body")
    }
}

/// What becomes of a request: a prediction for the worker, or an answer right away;
/// `has_worker` says whether a worker is attached.
pub fn prepare(body: Body, config: &Config, has_worker: bool) -> (res: Result<Prediction, Answer>)
    ensures
        match res {
            Ok(prediction) => prepared(body@, config@, has_worker) == Ok::<
                PredictionView,
                AnswerView,
            >(prediction@),
            Err(answer) => prepared(body@, config@, has_worker) == Err::<
                PredictionView,
                AnswerView,
            >(answer@),
        },
        body matches Body::Request(request) ==> (res matches Ok(prediction) ==> (
        prediction@.params matches JsonView::Object(fields) && {
            &&& fields.dom() == set!["state"@, "questions"@]
            &&& fields["state"@] == request.state@
            &&& fields["questions"@] == JsonView::Object(request.questions@)
        })),
{
    proof {
        reveal_strlit("state");
        reveal_strlit("questions");
        assert("state"@.len() != "questions"@.len());
    }
    let request = match body {
        Body::Rejected(status) => return Err(refuse_body(status, config.max_body_bytes)),
        Body::Malformed(fault) => {
            let message = join2(
                "request body is not a valid prediction request: ",
                fault.as_str(),
            );
            return Err(error_response(400, "invalid_json", message.as_str()));
        },
        Body::Request(request) => request,
    };
    match validate_request(&request, config.max_questions) {
        Ok(_) => {},
        Err(fault) => return Err(error_response(400, "invalid_request", fault.as_str())),
    }
    if !has_worker {
        return Err(
            error_response(503, "unavailable", "the resident model is still loading"),
        );
    }
    let kinds = question_kinds(&request.questions);
    let mut params = JsonObject::new();
    params.insert("state".to_owned(), request.state);
    params.insert("questions".to_owned(), Json::Object(request.questions));
    assert(params@.dom() =~= set!["state"@, "questions"@]);
    Ok(Prediction { kinds, params: Json::Object(params) })
}

/// The field `key`, or `null`.
pub open spec fn field_or_null(tree: JsonView, key: Seq<char>) -> JsonView {
    match field(tree, key) {
        Some(value) => value,
        None => JsonView::Null,
    }
}

/// The keys of an answer to a question of a known type.
pub open spec fn answer_keys(kind: Seq<char>) -> Option<Seq<Seq<char>>> {
    if kind == "noul"@ {
        Some(seq!["type"@, "noul"@])
    } else if kind == "choice"@ {
        Some(seq!["type"@, "choice"@, "confidence"@, "probabilities"@])
    } else if kind == "score"@ {
        Some(seq!["type"@, "score"@, "confidence"@, "legend"@, "probabilities"@])
    } else {
        None
    }
}

/// The fields of `tree` under the given keys; one that is missing counts as `null`.
pub open spec fn picked(tree: JsonView, keys: Seq<Seq<char>>) -> Map<Seq<char>, JsonView> {
    Map::new(|key: Seq<char>| keys.contains(key), |key: Seq<char>| field_or_null(tree, key))
}

/// An answer with the keys of its question type, and no others.
pub open spec fn jev_answer_tree(kind: Seq<char>, answer: JsonView) -> JsonView {
    match answer_keys(kind) {
        Some(keys) => JsonView::Object(picked(answer, keys)),
        None => answer,
    }
}

/// The characters of each of the string slices.
pub open spec fn key_texts(keys: Seq<&'static str>) -> Seq<Seq<char>> {
    Seq::new(keys.len(), |i: int| keys[i]@)
}

fn pick(value: &Json, keys: Vec<&'static str>) -> (res: Json)
    ensures
        res@ == JsonView::Object(picked(value@, key_texts(keys@))),
{
    let mut object = JsonObject::new();
    let ghost all = key_texts(keys@);
    let mut i: usize = 0;
    assert(object@ =~= picked(value@, all.take(0)));
    while i < keys.len()
        invariant
            i <= keys@.len(),
            all == key_texts(keys@),
            object@ == picked(value@, all.take(i as int)),
        decreases keys@.len() - i,
    {
        let found: Json = match value.get(keys[i]) {
            Some(found) => found.clone(),
            None => Json::Null,
        };
        let ghost before = object@;
        object.insert(keys[i].to_owned(), found);
        proof {
            let longer = all.take(i + 1);
            assert(longer =~= all.take(i as int).push(all[i as int]));
            assert forall|key: Seq<char>|
                longer.contains(key) <==> all.take(i as int).contains(key) || key
                    == all[i as int] by {
                if longer.contains(key) {
                    let j = choose|j: int| 0 <= j < longer.len() && longer[j] == key;
                    if j < i {
                        assert(all.take(i as int)[j] == key);
                    }
                }
                if all.take(i as int).contains(key) {
                    let j = choose|j: int|
                        0 <= j < all.take(i as int).len() && all.take(i as int)[j] == key;
                    assert(longer[j] == key);
                }
                assert(longer[i as int] == all[i as int]);
            }
            assert(object@ =~= picked(value@, longer));
        }
        i = i + 1;
    }
    assert(all.take(i as int) =~= all);
    Json::Object(object)
}

/// The exact answer key set for one question type. What the worker adds beyond it is dropped,
/// and a key it omitted becomes `null` rather than disappearing, so the shape does not depend
/// on the worker's health.
pub fn jev_answer(kind: &str, answer: &Json) -> (res: Json)
    ensures
        res@ == jev_answer_tree(kind@, answer@),
{
    if same_text(kind, "noul") {
        let keys: Vec<&'static str> = vec!["type", "noul"];
        assert(key_texts(keys@) =~= answer_keys(kind@)->0);
        pick(answer, keys)
    } else if same_text(kind, "choice") {
        let keys: Vec<&'static str> = vec!["type", "choice", "confidence", "probabilities"];
        assert(key_texts(keys@) =~= answer_keys(kind@)->0);
        pick(answer, keys)
    } else if same_text(kind, "score") {
        let keys: Vec<&'static str> = vec![
            "type",
            "score",
            "confidence",
            "legend",
            "probabilities",
        ];
        assert(key_texts(keys@) =~= answer_keys(kind@)->0);
        pick(answer, keys)
    } else {
        answer.clone()
    }
}

/// The worker's answer to the question `name`, or `null`.
pub open spec fn answer_to(result: JsonView, name: Seq<char>) -> JsonView {
    match field(result, "answers"@) {
        Some(answers) => field_or_null(answers, name),
        None => JsonView::Null,
    }
}

/// A token counter that the worker reports, or 0.
pub open spec fn counter(result: JsonView, key: Seq<char>) -> nat {
    match field(result, "usage"@) {
        Some(usage) => match unsigned_field(usage, key) {
            Some(count) => count as nat,
            None => 0,
        },
        None => 0,
    }
}

/// The names of the questions with their projected answers.
pub open spec fn projected_answers(
    kinds: Seq<(Seq<char>, Seq<char>)>,
    result: JsonView,
) -> Seq<(Seq<char>, JsonView)> {
    Seq::new(
        kinds.len(),
        |i: int| (kinds[i].0, jev_answer_tree(kinds[i].1, answer_to(result, kinds[i].0))),
    )
}

/// A worker result with exactly the keys `model`, `answers` and `usage`.
pub open spec fn jev_result_tree(
    kinds: Seq<(Seq<char>, Seq<char>)>,
    result: JsonView,
    fallback_model: Seq<char>,
) -> JsonView {
    JsonView::Object(
        Map::empty().insert(
            "model"@,
            JsonView::Text(
                match text_field(result, "model"@) {
                    Some(model) => model,
                    None => fallback_model,
                },
            ),
        ).insert("answers"@, JsonView::Object(fields_of(projected_answers(kinds, result)))).insert(
            "usage"@,
            JsonView::Object(
                Map::empty().insert(
                    "input_tokens"@,
                    number_tree(counter(result, "input_tokens"@)),
                ).insert("output_tokens"@, number_tree(counter(result, "output_tokens"@))),
            ),
        ),
    )
}

fn count(result: &Json, key: &str) -> (res: Json)
    ensures
        res@ == number_tree(counter(result@, key@)),
{
    let n: u64 = match result.get("usage") {
        Some(usage) => match usage.u64_field(key) {
            Some(n) => n,
            None => 0,
        },
        None => 0,
    };
    Json::Number(Number::Unsigned(n))
}

/// Project a worker result onto exactly `{model, answers, usage}`, with `usage` carrying two
/// token counters. `model` falls back to the configured one, so the key is never missing.
pub fn jev_result(kinds: &Vec<(String, String)>, result: &Json, fallback_model: &str) -> (res: Json)
    ensures
        res@ == jev_result_tree(kinds_view(kinds@), result@, fallback_model@),
{
    let ghost all = projected_answers(kinds_view(kinds@), result@);
    let mut answers = JsonObject::new();
    let mut i: usize = 0;
    assert(all.take(0) =~= Seq::empty());
    while i < kinds.len()
        invariant
            i <= kinds@.len(),
            all == projected_answers(kinds_view(kinds@), result@),
            answers@ == fields_of(all.take(i as int)),
        decreases kinds@.len() - i,
    {
        let name = kinds[i].0.as_str();
        let none = Json::Null;
        let answer: &Json = match result.get("answers") {
            Some(answers) => match answers.get(name) {
                Some(answer) => answer,
                None => &none,
            },
            None => &none,
        };
        let projected = jev_answer(kinds[i].1.as_str(), answer);
        proof {
            let pair = all[i as int];
            lemma_fields_push(all.take(i as int), pair.0, pair.1);
            assert(all.take(i as int).push(pair) =~= all.take(i + 1));
        }
        answers.insert(name.to_owned(), projected);
        i = i + 1;
    }
    assert(all.take(i as int) =~= all);
    let model = match result.str_field("model") {
        Some(model) => model,
        None => fallback_model,
    };
    let mut usage = JsonObject::new();
    usage.insert("input_tokens".to_owned(), count(result, "input_tokens"));
    usage.insert("output_tokens".to_owned(), count(result, "output_tokens"));
    let mut body = JsonObject::new();
    body.insert("model".to_owned(), Json::text(model));
    body.insert("answers".to_owned(), Json::Object(answers));
    body.insert("usage".to_owned(), Json::Object(usage));
    Json::Object(body)
}

/// The answer to a prediction request, from what the worker made of it.
pub open spec fn prediction_answer(
    kinds: Seq<(Seq<char>, Seq<char>)>,
    result: Result<JsonView, WorkerErrorView>,
    jev_shape: bool,
    fallback_model: Seq<char>,
) -> AnswerView {
    match result {
        Ok(result) => AnswerView {
            status: 200,
            body: if jev_shape {
                jev_result_tree(kinds, result, fallback_model)
            } else {
                result
            },
        },
        Err(error) => error_answer(error_status(error), error.code(), error.text()),
    }
}

/// The answer to a prediction request, from what the worker made of it; `jev_shape` asks for
/// the projected reply.
pub fn conclude(
    kinds: &Vec<(String, String)>,
    result: Result<Json, WorkerError>,
    jev_shape: bool,
    config: &Config,
) -> (res: Answer)
    ensures
        res@ == prediction_answer(
            kinds_view(kinds@),
            match result {
                Ok(json) => Ok(json@),
                Err(error) => Err(error@),
            },
            jev_shape,
            config@.model,
        ),
{
    match result {
        Ok(result) => if jev_shape {
            Answer { status: 200, body: jev_result(kinds, &result, config.model.as_str()) }
        } else {
            Answer { status: 200, body: result }
        },
        Err(error) => worker_error_response(&error),
    }
}

/// The projected reply has exactly the keys `model`, `answers` and `usage`: a string, an
/// object with an answer for each question and for nothing else, and an object with exactly
/// the two token counters.
pub proof fn lemma_jev_result_shape(
    kinds: Seq<(Seq<char>, Seq<char>)>,
    result: JsonView,
    fallback_model: Seq<char>,
)
    ensures
        jev_result_tree(kinds, result, fallback_model) matches JsonView::Object(fields) && {
            &&& fields.dom() =~= set!["model"@, "answers"@, "usage"@]
            &&& fields["model"@] is Text
            &&& fields["answers"@] matches JsonView::Object(answers) && forall|name: Seq<char>|
                #[trigger] answers.contains_key(name) <==> exists|i: int|
                    0 <= i < kinds.len() && (#[trigger] kinds[i]).0 == name
            &&& fields["usage"@] matches JsonView::Object(usage) && {
                &&& usage.dom() =~= set!["input_tokens"@, "output_tokens"@]
                &&& usage["input_tokens"@] == number_tree(counter(result, "input_tokens"@))
                &&& usage["output_tokens"@] == number_tree(counter(result, "output_tokens"@))
            }
        },
{
    reveal_strlit("model");
    reveal_strlit("answers");
    reveal_strlit("usage");
    reveal_strlit("input_tokens");
    reveal_strlit("output_tokens");
    assert("model"@[0] == 'm' && "usage"@[0] == 'u');
    assert("answers"@.len() == 7 && "model"@.len() == 5 && "usage"@.len() == 5);
    assert("input_tokens"@.len() != "output_tokens"@.len());
    let fields = jev_result_tree(kinds, result, fallback_model)->Object_0;
    assert(fields.dom() =~= set!["model"@, "answers"@, "usage"@]);
    let pairs = projected_answers(kinds, result);
    let answers = fields["answers"@]->Object_0;
    assert(answers == fields_of(pairs));
    lemma_fields_of(pairs);
    assert forall|name: Seq<char>|
        #[trigger] answers.contains_key(name) <==> exists|i: int|
            0 <= i < kinds.len() && (#[trigger] kinds[i]).0 == name by {
        if answers.contains_key(name) {
            let i = choose|i: int| 0 <= i < pairs.len() && #[trigger] pairs[i].0 == name;
            assert(kinds[i].0 == name);
        }
        if exists|i: int| 0 <= i < kinds.len() && (#[trigger] kinds[i]).0 == name {
            let i = choose|i: int| 0 <= i < kinds.len() && (#[trigger] kinds[i]).0 == name;
            assert(pairs[i].0 == name);
        }
    }
    let usage = fields["usage"@]->Object_0;
    assert(usage.dom() =~= set!["input_tokens"@, "output_tokens"@]);
}

/// The projected answer to a question of a known type has exactly the keys of that type, each
/// with the worker's own value or, where the worker left it out, `null`.
pub proof fn lemma_jev_answer_shape(kind: Seq<char>, answer: JsonView)
    requires
        is_question_type(kind),
    ensures
        jev_answer_tree(kind, answer) matches JsonView::Object(fields) && {
            &&& fields.dom() =~= (if kind == "noul"@ {
                set!["type"@, "noul"@]
            } else if kind == "choice"@ {
                set!["type"@, "choice"@, "confidence"@, "probabilities"@]
            } else {
                set!["type"@, "score"@, "confidence"@, "legend"@, "probabilities"@]
            })
            &&& forall|key: Seq<char>| #[trigger]
                fields.contains_key(key) ==> fields[key] == field_or_null(answer, key)
        },
{
    let keys = answer_keys(kind)->0;
    let fields = picked(answer, keys);
    if kind == "noul"@ {
        assert(keys[0] == "type"@ && keys[1] == "noul"@);
        assert(fields.dom() =~= set!["type"@, "noul"@]);
    } else if kind == "choice"@ {
        assert(keys[0] == "type"@ && keys[1] == "choice"@ && keys[2] == "confidence"@ && keys[3]
            == "probabilities"@);
        assert(fields.dom() =~= set!["type"@, "choice"@, "confidence"@, "probabilities"@]);
    } else {
        assert(keys[0] == "type"@ && keys[1] == "score"@ && keys[2] == "confidence"@ && keys[3]
            == "legend"@ && keys[4] == "probabilities"@);
        assert(fields.dom() =~= set![
            "type"@,
            "score"@,
            "confidence"@,
            "legend"@,
            "probabilities"@,
        ]);
    }
}

/// The projected reply to an accepted request answers exactly its questions, by their names.
pub proof fn lemma_answers_follow_the_questions(
    request: PredictRequestView,
    result: JsonView,
    fallback_model: Seq<char>,
)
    ensures
        field(
            jev_result_tree(kinds_of(request.questions), result, fallback_model),
            "answers"@,
        ) matches Some(JsonView::Object(answers)) && answers.dom() =~= fields_of(
            request.questions,
        ).dom(),
{
    let kinds = kinds_of(request.questions);
    lemma_jev_result_shape(kinds, result, fallback_model);
    lemma_fields_of(request.questions);
    let fields = jev_result_tree(kinds, result, fallback_model)->Object_0;
    assert(fields.dom().contains("answers"@));
    let answers = fields["answers"@]->Object_0;
    assert forall|name: Seq<char>|
        answers.dom().contains(name) <==> fields_of(request.questions).dom().contains(name) by {
        if answers.contains_key(name) {
            let i = choose|i: int| 0 <= i < kinds.len() && (#[trigger] kinds[i]).0 == name;
            assert(request.questions[i].0 == name);
        }
        if fields_of(request.questions).contains_key(name) {
            let i = choose|i: int|
                0 <= i < request.questions.len() && #[trigger] request.questions[i].0 == name;
            assert(kinds[i].0 == name);
        }
    }
}

proof fn lemma_each_question_in_order(questions: Seq<(Seq<char>, JsonView)>, i: int)
    requires
        questions_fault(questions) is None,
        0 <= i < questions.len(),
    ensures
        question_fault(questions[i].0, questions[i].1) is None,
    decreases i,
{
    if i > 0 {
        lemma_each_question_in_order(questions.skip(1), i - 1);
        assert(questions.skip(1)[i - 1] == questions[i]);
    }
}

/// A request reaches the worker only where one is attached, within the limit on questions,
/// with a state, and with a name, a known type and instructions on each question.
pub proof fn lemma_only_valid_requests_reach_the_worker(
    body: BodyView,
    config: ConfigView,
    has_worker: bool,
)
    requires
        prepared(body, config, has_worker) is Ok,
    ensures
        has_worker,
        body matches BodyView::Request(request) && {
            &&& 0 < request.questions.len() <= config.max_questions
            &&& state_fault(request.state) is None
            &&& forall|i: int|
                0 <= i < request.questions.len() ==> {
                    let (name, question) = #[trigger] request.questions[i];
                    &&& !is_blank_text(name)
                    &&& text_field(question, "type"@) matches Some(kind) && is_question_type(kind)
                    &&& field(question, "instructions"@) is Some
                }
        },
{
    let request = body->Request_0;
    assert forall|i: int| 0 <= i < request.questions.len() implies {
        let (name, question) = #[trigger] request.questions[i];
        &&& !is_blank_text(name)
        &&& text_field(question, "type"@) matches Some(kind) && is_question_type(kind)
        &&& field(question, "instructions"@) is Some
    } by {
        lemma_each_question_in_order(request.questions, i);
    }
}

/// Top-level properties beyond the state and the questions change nothing.
pub proof fn lemma_extra_properties_are_ignored(
    a: PredictRequestView,
    b: PredictRequestView,
    config: ConfigView,
    has_worker: bool,
)
    requires
        a.state == b.state,
        a.questions == b.questions,
    ensures
        prepared(BodyView::Request(a), config, has_worker) == prepared(
            BodyView::Request(b),
            config,
            has_worker,
        ),
{
}

/// Errors are the same on both prediction paths, a success is answered with 200 on both, and
/// without the projection the worker's result is passed on untouched.
pub proof fn lemma_paths_differ_in_the_projection_only(
    kinds: Seq<(Seq<char>, Seq<char>)>,
    result: Result<JsonView, WorkerErrorView>,
    fallback_model: Seq<char>,
)
    ensures
        ({
            let raw = prediction_answer(kinds, result, false, fallback_model);
            let projected = prediction_answer(kinds, result, true, fallback_model);
            &&& result is Err ==> raw == projected && raw.status >= 400
            &&& result matches Ok(value) ==> raw.status == 200 && projected.status == 200
                && raw.body == value
        }),
{
}

/// Whatever a lost worker left behind, a prediction that comes in afterwards is answered as
/// unavailable, and never with a result.
pub proof fn lemma_lost_worker_is_unavailable(
    life: LifecycleView,
    outcome: OutcomeView,
    reaped: Result<Seq<char>, Seq<char>>,
    kinds: Seq<(Seq<char>, Seq<char>)>,
    jev_shape: bool,
    fallback_model: Seq<char>,
)
    requires
        outcome is Restart,
    ensures
        admission_fault(true, ended_life(life, outcome, reaped).state) matches Some(error) && {
            let answer = prediction_answer(kinds, Err(error), jev_shape, fallback_model);
            &&& answer.status == 503
            &&& answer.body == error_tree("unavailable"@, error.text())
        },
{
}

/// Whether a text holds a character that is not white space.
pub open spec fn says_something(text: Seq<char>) -> bool {
    exists|i: int| 0 <= i < text.len() && !is_white_space(#[trigger] text[i])
}

/// Whether a JSON value is a list with an item or an object with a field.
pub open spec fn holds_something(tree: JsonView) -> bool {
    match tree {
        JsonView::List(items) => items.len() > 0,
        JsonView::Object(fields) => exists|key: Seq<char>| #[trigger] fields.contains_key(key),
        _ => false,
    }
}

proof fn lemma_hollow(tree: JsonView)
    ensures
        is_hollow(tree) <==> (tree is List || tree is Object) && !holds_something(tree),
{
    if let JsonView::Object(fields) = tree {
        if !holds_something(tree) {
            assert forall|key: Seq<char>| !fields.dom().contains(key) by {
                assert(!fields.contains_key(key));
            }
            assert(fields =~= Map::empty());
        }
    }
}

/// The state of a request is taken exactly when it is `null`, a text that is not blank, or a list
/// or an object that is not empty.
pub proof fn lemma_states_that_are_taken(tree: JsonView)
    ensures
        state_fault(tree) is None <==> (tree is Null || holds_something(tree) || (
        tree matches JsonView::Text(text) && says_something(text))),
{
    lemma_hollow(tree);
}

/// A question is taken exactly when it has a name that is not blank, is an object with
/// instructions of any kind, and is of one of the three types: a choice among the fields or items
/// of its criteria, a score on a list of levels, or a noul, which needs no criteria.
pub proof fn lemma_questions_that_are_taken(name: Seq<char>, tree: JsonView)
    ensures
        question_fault(name, tree) is None <==> {
            let criteria = field(tree, "criteria"@);
            &&& says_something(name)
            &&& tree is Object
            &&& field(tree, "instructions"@) is Some
            &&& text_field(tree, "type"@) == Some("noul"@) || (text_field(tree, "type"@) == Some(
                "choice"@,
            ) && criteria is Some && holds_something(criteria->0)) || (text_field(tree, "type"@)
                == Some("score"@) && criteria is Some && criteria->0 is List && holds_something(
                criteria->0,
            ))
        },
{
    reveal_strlit("noul");
    reveal_strlit("choice");
    reveal_strlit("score");
    assert("noul"@.len() == 4 && "choice"@.len() == 6 && "score"@.len() == 5);
    if let Some(criteria) = field(tree, "criteria"@) {
        lemma_hollow(criteria);
    }
}

proof fn lemma_all_questions_in_order(questions: Seq<(Seq<char>, JsonView)>)
    ensures
        questions_fault(questions) is None <==> forall|i: int|
            0 <= i < questions.len() ==> question_fault(
                (#[trigger] questions[i]).0,
                questions[i].1,
            ) is None,
    decreases questions.len(),
{
    if questions.len() > 0 {
        let rest = questions.skip(1);
        lemma_all_questions_in_order(rest);
        if questions_fault(questions) is None {
            assert forall|i: int| 0 <= i < questions.len() implies question_fault(
                (#[trigger] questions[i]).0,
                questions[i].1,
            ) is None by {
                lemma_each_question_in_order(questions, i);
            }
        } else if question_fault(questions[0].0, questions[0].1) is None {
            let i = choose|i: int|
                0 <= i < rest.len() && question_fault((#[trigger] rest[i]).0, rest[i].1) is Some;
            assert(rest[i] == questions[i + 1]);
            assert(question_fault(questions[i + 1].0, questions[i + 1].1) is Some);
        }
    }
}

/// A request goes to the worker exactly when one is attached, the state is taken, and there is a
/// question, no more than allowed, and each of them is taken.
pub proof fn lemma_requests_that_are_taken(
    request: PredictRequestView,
    config: ConfigView,
    has_worker: bool,
)
    ensures
        prepared(BodyView::Request(request), config, has_worker) is Ok <==> {
            &&& has_worker
            &&& state_fault(request.state) is None
            &&& 0 < request.questions.len() <= config.max_questions
            &&& forall|i: int|
                0 <= i < request.questions.len() ==> question_fault(
                    (#[trigger] request.questions[i]).0,
                    request.questions[i].1,
                ) is None
        },
{
    lemma_all_questions_in_order(request.questions);
}

/// What goes to the worker is an object of exactly the state and the questions of the request:
/// the state as it came in, whatever it is, and every question under its name, unchanged. The
/// names and declared types of the questions are kept for the reply.
pub proof fn lemma_prediction_carries_the_request(
    request: PredictRequestView,
    config: ConfigView,
    has_worker: bool,
    prediction: PredictionView,
)
    requires
        prepared(BodyView::Request(request), config, has_worker) == Ok::<
            PredictionView,
            AnswerView,
        >(prediction),
    ensures
        prediction.params matches JsonView::Object(fields) && {
            &&& fields.dom() == set!["state"@, "questions"@]
            &&& fields["state"@] == request.state
            &&& fields["questions"@] matches JsonView::Object(questions) && {
                &&& questions == fields_of(request.questions)
                &&& forall|name: Seq<char>|
                    #[trigger] questions.contains_key(name) <==> exists|i: int|
                        0 <= i < request.questions.len() && (#[trigger] request.questions[i]).0
                            == name
                &&& distinct_names(request.questions) ==> forall|i: int|
                    0 <= i < request.questions.len() ==> questions[(
                    #[trigger] request.questions[i]).0] == request.questions[i].1
            }
        },
        prediction.kinds.len() == request.questions.len(),
        forall|i: int|
            0 <= i < request.questions.len() ==> (#[trigger] prediction.kinds[i]).0
                == request.questions[i].0 && text_field(request.questions[i].1, "type"@) == Some(
                prediction.kinds[i].1,
            ),
{
    reveal_strlit("state");
    reveal_strlit("questions");
    assert("state"@.len() != "questions"@.len());
    let fields = prediction.params->Object_0;
    assert(fields.dom() =~= set!["state"@, "questions"@]);
    lemma_fields_of(request.questions);
    let questions = fields["questions"@]->Object_0;
    assert forall|name: Seq<char>| #[trigger]
        questions.contains_key(name) <==> exists|i: int|
            0 <= i < request.questions.len() && (#[trigger] request.questions[i]).0 == name by {
        if questions.contains_key(name) {
            let i = choose|i: int|
                0 <= i < request.questions.len() && #[trigger] request.questions[i].0 == name;
            assert(request.questions[i].0 == name);
        }
    }
    assert forall|i: int| 0 <= i < request.questions.len() implies (
    #[trigger] prediction.kinds[i]).0 == request.questions[i].0 && text_field(
        request.questions[i].1,
        "type"@,
    ) == Some(prediction.kinds[i].1) by {
        lemma_each_question_in_order(request.questions, i);
    }
}

/// Two requests ask the worker the same only where their states and their questions agree.
pub proof fn lemma_different_requests_ask_differently(
    a: PredictRequestView,
    b: PredictRequestView,
    config: ConfigView,
    prediction: PredictionView,
)
    requires
        prepared(BodyView::Request(a), config, true) == Ok::<PredictionView, AnswerView>(
            prediction,
        ),
        prepared(BodyView::Request(b), config, true) == Ok::<PredictionView, AnswerView>(
            prediction,
        ),
    ensures
        a.state == b.state,
        fields_of(a.questions) == fields_of(b.questions),
{
    lemma_prediction_carries_the_request(a, config, true, prediction);
    lemma_prediction_carries_the_request(b, config, true, prediction);
}

/// A request that does not go to the worker is answered with the error that says why: a body
/// that is too large, that cannot be read or that is no request, a request that is not in order,
/// or a worker that is not there yet.
pub proof fn lemma_refusals_say_why(body: BodyView, config: ConfigView, has_worker: bool)
    requires
        prepared(body, config, has_worker) is Err,
    ensures
        prepared(body, config, has_worker) matches Err(answer) && match body {
            BodyView::Rejected(status) => if status == 413 {
                is_error(
                    answer,
                    413,
                    "body_too_large"@,
                    "request body exceeds the "@ + digits(config.max_body_bytes as nat)
                        + " byte limit"@,
                )
            } else {
                is_error(answer, status, "invalid_body"@, "could not read the request body"@)
            },
            BodyView::Malformed(fault) => is_error(
                answer,
                400,
                "invalid_json"@,
                "request body is not a valid prediction request: "@ + fault,
            ),
            BodyView::Request(request) => {
                let count = request.questions.len();
                let sound = forall|i: int|
                    0 <= i < count ==> question_fault(
                        (#[trigger] request.questions[i]).0,
                        request.questions[i].1,
                    ) is None;
                if state_fault(request.state) is Some {
                    is_error(answer, 400, "invalid_request"@, state_fault(request.state)->0)
                } else if count == 0 {
                    is_error(
                        answer,
                        400,
                        "invalid_request"@,
                        "questions must contain at least one named question"@,
                    )
                } else if count > config.max_questions {
                    is_error(
                        answer,
                        400,
                        "invalid_request"@,
                        "questions contains "@ + digits(count) + " entries, the limit is "@
                            + digits(config.max_questions as nat),
                    )
                } else if !sound {
                    exists|i: int|
                        {
                            let (name, question) = #[trigger] request.questions[i];
                            &&& 0 <= i < count
                            &&& question_fault(name, question) is Some
                            &&& is_error(
                                answer,
                                400,
                                "invalid_request"@,
                                question_fault(name, question)->0,
                            )
                        }
                } else {
                    !has_worker && is_error(
                        answer,
                        503,
                        "unavailable"@,
                        "the resident model is still loading"@,
                    )
                }
            },
        },
{
    match body {
        BodyView::Rejected(status) => {
            lemma_errors_have_one_shape(
                status,
                "body_too_large"@,
                "request body exceeds the "@ + digits(config.max_body_bytes as nat)
                    + " byte limit"@,
            );
            lemma_errors_have_one_shape(
                status,
                "invalid_body"@,
                "could not read the request body"@,
            );
        },
        BodyView::Malformed(fault) => {
            lemma_errors_have_one_shape(
                400,
                "invalid_json"@,
                "request body is not a valid prediction request: "@ + fault,
            );
        },
        BodyView::Request(request) => {
            lemma_all_questions_in_order(request.questions);
            match request_fault(request, config.max_questions as nat) {
                Some(fault) => {
                    lemma_errors_have_one_shape(400, "invalid_request"@, fault);
                    if questions_fault(request.questions) is Some {
                        let i = lemma_a_question_out_of_order(request.questions);
                        let (name, question) = request.questions[i];
                    }
                },
                None => {
                    lemma_errors_have_one_shape(
                        503,
                        "unavailable"@,
                        "the resident model is still loading"@,
                    );
                },
            }
        },
    }
}

proof fn lemma_a_question_out_of_order(questions: Seq<(Seq<char>, JsonView)>) -> (at: int)
    requires
        questions_fault(questions) is Some,
    ensures
        0 <= at < questions.len(),
        question_fault(questions[at].0, questions[at].1) == questions_fault(questions),
    decreases questions.len(),
{
    if question_fault(questions[0].0, questions[0].1) is Some {
        0
    } else {
        let at = lemma_a_question_out_of_order(questions.skip(1));
        assert(questions.skip(1)[at] == questions[at + 1]);
        at + 1
    }
}

/// What is wrong with a question is told under its name.
pub proof fn lemma_question_faults_name_the_question(
    name: Seq<char>,
    tree: JsonView,
    fault: Seq<char>,
)
    requires
        question_fault(name, tree) == Some(fault),
    ensures
        says_something(name) ==> fault.len() >= "question "@.len() + quoted_text(name).len()
            && fault.take(("question "@.len() + quoted_text(name).len()) as int) == "question "@
            + quoted_text(name),
        !says_something(name) ==> fault == "question names must not be empty"@,
{
    let head = "question "@ + quoted_text(name);
    if says_something(name) {
        assert(fault.take(head.len() as int) =~= head);
    }
}

/// What the worker's result says under `key` in its answer to the question `name`, if anything.
pub open spec fn answered(result: JsonView, name: Seq<char>, key: Seq<char>) -> Option<JsonView> {
    match field(result, "answers"@) {
        Some(answers) => match field(answers, name) {
            Some(answer) => field(answer, key),
            None => None,
        },
        None => None,
    }
}

/// Whether a value is what the worker answered, or `null` where it did not.
pub open spec fn is_as_answered(value: JsonView, given: Option<JsonView>) -> bool {
    match given {
        Some(given) => value == given,
        None => value is Null,
    }
}

/// The projected reply has, under the name of each question, exactly the keys of its declared
/// type, and under each of them what the worker's result says there in its answer to that
/// question, or `null` where it says nothing. An answer of any other type is passed on as it is.
pub proof fn lemma_each_question_gets_its_answer(
    kinds: Seq<(Seq<char>, Seq<char>)>,
    result: JsonView,
    fallback_model: Seq<char>,
    at: int,
)
    requires
        0 <= at < kinds.len(),
        forall|j: int| at < j < kinds.len() ==> (#[trigger] kinds[j]).0 != kinds[at].0,
    ensures
        jev_result_tree(kinds, result, fallback_model) matches JsonView::Object(fields) && (
        fields["answers"@] matches JsonView::Object(answers) && {
            let (name, kind) = kinds[at];
            &&& fields.contains_key("answers"@)
            &&& answers.contains_key(name)
            &&& kind == "noul"@ ==> (answers[name] matches JsonView::Object(answer) && {
                &&& answer.dom() == set!["type"@, "noul"@]
                &&& is_as_answered(answer["type"@], answered(result, name, "type"@))
                &&& is_as_answered(answer["noul"@], answered(result, name, "noul"@))
            })
            &&& kind == "choice"@ ==> (answers[name] matches JsonView::Object(answer) && {
                &&& answer.dom() == set!["type"@, "choice"@, "confidence"@, "probabilities"@]
                &&& is_as_answered(answer["type"@], answered(result, name, "type"@))
                &&& is_as_answered(answer["choice"@], answered(result, name, "choice"@))
                &&& is_as_answered(answer["confidence"@], answered(result, name, "confidence"@))
                &&& is_as_answered(
                    answer["probabilities"@],
                    answered(result, name, "probabilities"@),
                )
            })
            &&& kind == "score"@ ==> (answers[name] matches JsonView::Object(answer) && {
                &&& answer.dom() == set![
                    "type"@,
                    "score"@,
                    "confidence"@,
                    "legend"@,
                    "probabilities"@,
                ]
                &&& is_as_answered(answer["type"@], answered(result, name, "type"@))
                &&& is_as_answered(answer["score"@], answered(result, name, "score"@))
                &&& is_as_answered(answer["confidence"@], answered(result, name, "confidence"@))
                &&& is_as_answered(answer["legend"@], answered(result, name, "legend"@))
                &&& is_as_answered(
                    answer["probabilities"@],
                    answered(result, name, "probabilities"@),
                )
            })
            &&& kind != "noul"@ && kind != "choice"@ && kind != "score"@ ==> is_as_answered(
                answers[name],
                match field(result, "answers"@) {
                    Some(given) => field(given, name),
                    None => None,
                },
            )
        }),
{
    lemma_jev_result_shape(kinds, result, fallback_model);
    let fields = jev_result_tree(kinds, result, fallback_model)->Object_0;
    assert(fields.dom().contains("answers"@));
    let pairs = projected_answers(kinds, result);
    let (name, kind) = kinds[at];
    assert forall|j: int| at < j < pairs.len() implies #[trigger] pairs[j].0 != pairs[at].0 by {
        assert(kinds[j].0 != kinds[at].0);
    }
    lemma_last_value_stays(pairs, at);
    reveal_strlit("answers");
    reveal_strlit("model");
    reveal_strlit("usage");
    assert("answers"@.len() == 7 && "model"@.len() == 5 && "usage"@.len() == 5);
    let answers = fields["answers"@]->Object_0;
    assert(answers == fields_of(pairs));
    assert(answers[name] == pairs[at].1);
    if is_question_type(kind) {
        lemma_jev_answer_shape(kind, answer_to(result, name));
        let answer = answers[name]->Object_0;
        if kind == "noul"@ {
            assert(answer.dom() =~= set!["type"@, "noul"@]);
            assert(answer.contains_key("type"@) && answer.contains_key("noul"@));
        } else if kind == "choice"@ {
            assert(answer.dom() =~= set!["type"@, "choice"@, "confidence"@, "probabilities"@]);
            assert(answer.contains_key("type"@) && answer.contains_key("choice"@));
            assert(answer.contains_key("confidence"@) && answer.contains_key("probabilities"@));
        } else {
            assert(answer.dom() =~= set![
                "type"@,
                "score"@,
                "confidence"@,
                "legend"@,
                "probabilities"@,
            ]);
            assert(answer.contains_key("type"@) && answer.contains_key("score"@));
            assert(answer.contains_key("confidence"@) && answer.contains_key("probabilities"@));
            assert(answer.contains_key("legend"@));
        }
    }
    reveal_strlit("noul");
    reveal_strlit("choice");
    reveal_strlit("score");
    assert("noul"@.len() == 4 && "choice"@.len() == 6 && "score"@.len() == 5);
}

/// The projected reply names the model that the worker names, else the configured one, and
/// counts the tokens that the worker counts, 0 where it does not.
pub proof fn lemma_projection_keeps_model_and_usage(
    kinds: Seq<(Seq<char>, Seq<char>)>,
    result: JsonView,
    fallback_model: Seq<char>,
    model: Seq<char>,
    usage: JsonView,
    count: u64,
)
    ensures
        jev_result_tree(kinds, result, fallback_model) matches JsonView::Object(fields) && (
        fields["usage"@] matches JsonView::Object(counts) && {
            &&& text_field(result, "model"@) == Some(model) ==> fields["model"@] == JsonView::Text(
                model,
            )
            &&& text_field(result, "model"@) is None ==> fields["model"@] == JsonView::Text(
                fallback_model,
            )
            &&& field(result, "usage"@) is None ==> counts["input_tokens"@] == JsonView::Number(
                NumberView::Integer(0),
            ) && counts["output_tokens"@] == JsonView::Number(NumberView::Integer(0))
            &&& field(result, "usage"@) == Some(usage) ==> {
                &&& unsigned_field(usage, "input_tokens"@) == Some(count)
                    ==> counts["input_tokens"@] == JsonView::Number(
                    NumberView::Integer(count as int),
                )
                &&& unsigned_field(usage, "output_tokens"@) == Some(count)
                    ==> counts["output_tokens"@] == JsonView::Number(
                    NumberView::Integer(count as int),
                )
                &&& unsigned_field(usage, "input_tokens"@) is None ==> counts["input_tokens"@]
                    == JsonView::Number(NumberView::Integer(0))
                &&& unsigned_field(usage, "output_tokens"@) is None ==> counts["output_tokens"@]
                    == JsonView::Number(NumberView::Integer(0))
            }
        }),
{
    lemma_jev_result_shape(kinds, result, fallback_model);
    reveal_strlit("answers");
    reveal_strlit("model");
    reveal_strlit("usage");
    assert("answers"@.len() == 7 && "model"@.len() == 5 && "usage"@.len() == 5);
    assert("model"@[0] == 'm' && "usage"@[0] == 'u');
}

/// The reply to a prediction in the projected form answers each question of the request by its
/// name, with what the worker's result says of it under the keys of its declared type.
pub proof fn lemma_reply_answers_the_request(
    request: PredictRequestView,
    config: ConfigView,
    prediction: PredictionView,
    result: JsonView,
    at: int,
    key: Seq<char>,
    value: JsonView,
)
    requires
        prepared(BodyView::Request(request), config, true) == Ok::<PredictionView, AnswerView>(
            prediction,
        ),
        distinct_names(request.questions),
        0 <= at < request.questions.len(),
        answered(result, request.questions[at].0, key) == Some(value),
        key == "type"@ || text_field(request.questions[at].1, "type"@) == Some(key) || (text_field(
            request.questions[at].1,
            "type"@,
        ) != Some("noul"@) && (key == "confidence"@ || key == "probabilities"@)) || (text_field(
            request.questions[at].1,
            "type"@,
        ) == Some("score"@) && key == "legend"@),
    ensures
        ({
            let answer = prediction_answer(prediction.kinds, Ok(result), true, config.model);
            &&& answer.status == 200
            &&& answered(answer.body, request.questions[at].0, key) == Some(value)
        }),
{
    let kinds = prediction.kinds;
    lemma_prediction_carries_the_request(request, config, true, prediction);
    lemma_only_valid_requests_reach_the_worker(BodyView::Request(request), config, true);
    assert(kinds[at].0 == request.questions[at].0);
    let (name, question) = request.questions[at];
    assert forall|j: int| at < j < kinds.len() implies (#[trigger] kinds[j]).0 != kinds[at].0 by {
        assert(request.questions[at].0 != request.questions[j].0);
    }
    lemma_each_question_gets_its_answer(kinds, result, config.model, at);
    let fields = jev_result_tree(kinds, result, config.model)->Object_0;
    let answers = fields["answers"@]->Object_0;
    let answer = answers[name]->Object_0;
    assert(answer.dom().contains(key));
}

/// What the worker could not serve is answered with the status, the code and the description of
/// the error, on both prediction paths.
pub proof fn lemma_worker_errors_are_answered(
    kinds: Seq<(Seq<char>, Seq<char>)>,
    error: WorkerErrorView,
    jev_shape: bool,
    fallback_model: Seq<char>,
)
    ensures
        is_error(
            prediction_answer(kinds, Err(error), jev_shape, fallback_model),
            match error {
                WorkerErrorView::InvalidRequest(_) => 400u16,
                WorkerErrorView::Overloaded => 429,
                WorkerErrorView::WorkerFailed(_) | WorkerErrorView::OversizedResponse(_) => 502,
                WorkerErrorView::InferenceTimeout(_) => 504,
                _ => 503,
            },
            error.code(),
            error.text(),
        ),
{
    lemma_errors_have_one_shape(error_status(error), error.code(), error.text());
}

/// The projected path answers with the model that the worker names, else the configured one, and
/// with an answer for each question asked and no other; the other path passes the worker's result
/// on untouched.
pub proof fn lemma_results_are_answered(
    kinds: Seq<(Seq<char>, Seq<char>)>,
    result: JsonView,
    fallback_model: Seq<char>,
    name: Seq<char>,
)
    ensures
        prediction_answer(kinds, Ok(result), false, fallback_model).status == 200,
        prediction_answer(kinds, Ok(result), false, fallback_model).body == result,
        prediction_answer(kinds, Ok(result), true, fallback_model).status == 200,
        prediction_answer(
            kinds,
            Ok(result),
            true,
            fallback_model,
        ).body matches JsonView::Object(fields) && {
            &&& fields.dom() == set!["model"@, "answers"@, "usage"@]
            &&& fields["model"@] == JsonView::Text(
                match text_field(result, "model"@) {
                    Some(model) => model,
                    None => fallback_model,
                },
            )
            &&& fields["answers"@] matches JsonView::Object(answers) && (answers.contains_key(name)
                <==> exists|i: int| 0 <= i < kinds.len() && (#[trigger] kinds[i]).0 == name)
        },
{
    lemma_jev_result_shape(kinds, result, fallback_model);
    let model = match text_field(result, "model"@) {
        Some(model) => model,
        None => fallback_model,
    };
    lemma_projection_keeps_model_and_usage(kinds, result, fallback_model, model, result, 0);
    let fields = jev_result_tree(kinds, result, fallback_model)->Object_0;
    assert(fields.dom() =~= set!["model"@, "answers"@, "usage"@]);
}

/// Every question is kept for the reply under its name, in order, with its declared type, if it
/// has one.
pub proof fn lemma_kinds_are_as_declared(questions: Seq<(Seq<char>, JsonView)>, i: int)
    requires
        0 <= i < questions.len(),
    ensures
        kinds_of(questions).len() == questions.len(),
        kinds_of(questions)[i].0 == questions[i].0,
        match text_field(questions[i].1, "type"@) {
            Some(kind) => kinds_of(questions)[i].1 == kind,
            None => kinds_of(questions)[i].1.len() == 0,
        },
{
}

/// What is wrong with the state of a request is told by what it is.
pub proof fn lemma_state_faults_say_what(text: Seq<char>, tree: JsonView)
    ensures
        state_fault(JsonView::Text(Seq::empty())) == Some("state must not be an empty string"@),
        !says_something(text) ==> state_fault(JsonView::Text(text)) == Some(
            "state must not be an empty string"@,
        ),
        state_fault(JsonView::List(Seq::empty())) == Some("state list must not be empty"@),
        state_fault(JsonView::Object(Map::empty())) == Some("state object must not be empty"@),
        tree is Bool ==> state_fault(tree) == Some(
            "state must be a string, object or list, got "@ + "a boolean"@,
        ),
        tree is Number ==> state_fault(tree) == Some(
            "state must be a string, object or list, got "@ + "a number"@,
        ),
{
}

/// What a JSON value is called.
pub proof fn lemma_kinds_of_values(tree: JsonView)
    ensures
        tree is Null ==> kind_name(tree) == "null"@,
        tree is Bool ==> kind_name(tree) == "a boolean"@,
        tree is Number ==> kind_name(tree) == "a number"@,
        tree is Text ==> kind_name(tree) == "a string"@,
        tree is List ==> kind_name(tree) == "a list"@,
        tree is Object ==> kind_name(tree) == "an object"@,
{
}

/// What is wrong with a question that has a name is told by what it is: it is no object, it has
/// no type or an unknown one, no instructions, or not the criteria that its type needs.
pub proof fn lemma_question_faults_say_what(name: Seq<char>, tree: JsonView)
    requires
        says_something(name),
    ensures
        ({
            let of = |fault: Seq<char>| Some("question "@ + quoted_text(name) + fault);
            let kind = text_field(tree, "type"@);
            let told = field(tree, "instructions"@) is Some;
            let criteria = field(tree, "criteria"@);
            &&& !(tree is Object) ==> question_fault(name, tree) == of(
                " must be an object, got "@ + kind_name(tree),
            )
            &&& tree is Object && kind is None ==> question_fault(name, tree) == of(
                " is missing a string \"type\""@,
            )
            &&& kind is Some && kind->0 != "noul"@ && kind->0 != "choice"@ && kind->0 != "score"@
                ==> question_fault(name, tree) == of(
                " has unsupported type "@ + quoted_text(kind->0)
                    + ", expected one of choice, score, noul"@,
            )
            &&& (kind == Some("noul"@) || kind == Some("choice"@) || kind == Some("score"@))
                && !told ==> question_fault(name, tree) == of(" is missing \"instructions\""@)
            &&& kind == Some("choice"@) && told ==> {
                &&& criteria is None ==> question_fault(name, tree) == of(
                    " of type choice is missing \"criteria\""@,
                )
                &&& criteria is Some && (criteria->0 is List || criteria->0 is Object)
                    && !holds_something(criteria->0) ==> question_fault(name, tree) == of(
                    " needs at least one choice criterion"@,
                )
                &&& criteria is Some && !(criteria->0 is List) && !(criteria->0 is Object)
                    ==> question_fault(name, tree) == of(
                    " criteria must be an object or list of option names, got "@ + kind_name(
                        criteria->0,
                    ),
                )
            }
            &&& kind == Some("score"@) && told ==> {
                &&& criteria is None ==> question_fault(name, tree) == of(
                    " of type score is missing \"criteria\""@,
                )
                &&& criteria is Some && criteria->0 is List && !holds_something(criteria->0)
                    ==> question_fault(name, tree) == of(" needs at least one score criterion"@)
                &&& criteria is Some && !(criteria->0 is List) ==> question_fault(name, tree) == of(
                    " criteria must be a list of ordered levels, got "@ + kind_name(criteria->0),
                )
            }
        }),
{
    reveal_strlit("noul");
    reveal_strlit("choice");
    reveal_strlit("score");
    assert("noul"@.len() == 4 && "choice"@.len() == 6 && "score"@.len() == 5);
    if let Some(criteria) = field(tree, "criteria"@) {
        lemma_hollow(criteria);
    }
}

} // verus!
