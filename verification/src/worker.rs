//! What the daemon knows about its resident worker process: failures, metadata, lifecycle.

use vstd::prelude::*;

use crate::json::bool_field;
use crate::json::field;
use crate::json::item_trees;
use crate::json::text_field;
use crate::json::text_of;
use crate::json::unsigned_field;
use crate::json::Json;
use crate::json::JsonView;
use crate::text::clone_texts;
use crate::text::decimal;
use crate::text::digits;
use crate::text::join2;
use crate::text::join3;
use crate::text::join5;
use crate::text::same_text;
use crate::text::texts;
use crate::time::Duration;

verus! {

/// Errors surfaced to the API layer. They map onto JSON error codes.
#[derive(Debug)]
pub enum WorkerError {
    /// The worker has no live model (dead, starting, restarting, shutting down).
    Unavailable(String),
    /// Startup deadline expired while loading the model.
    StartupTimeout(Duration),
    /// The worker answered the ready handshake but could not actually warm up.
    StartupFailed(String),
    /// A single prediction exceeded its deadline.
    InferenceTimeout(Duration),
    /// The request never reached the model because the worker broke first.
    WorkerFailed(String),
    /// The worker rejected the request itself.
    InvalidRequest(String),
    /// Response frame larger than the configured cap.
    OversizedResponse(usize),
    /// The daemon is shutting down and refuses new work.
    ShuttingDown,
    /// All admission slots are busy.
    Overloaded,
}

/// The mathematical reading of a [`WorkerError`].
pub enum WorkerErrorView {
    Unavailable(Seq<char>),
    StartupTimeout(Duration),
    StartupFailed(Seq<char>),
    InferenceTimeout(Duration),
    WorkerFailed(Seq<char>),
    InvalidRequest(Seq<char>),
    OversizedResponse(usize),
    ShuttingDown,
    Overloaded,
}

impl View for WorkerError {
    type V = WorkerErrorView;

    open spec fn view(&self) -> WorkerErrorView {
        match *self {
            WorkerError::Unavailable(detail) => WorkerErrorView::Unavailable(detail@),
            WorkerError::StartupTimeout(limit) => WorkerErrorView::StartupTimeout(limit),
            WorkerError::StartupFailed(detail) => WorkerErrorView::StartupFailed(detail@),
            WorkerError::InferenceTimeout(limit) => WorkerErrorView::InferenceTimeout(limit),
            WorkerError::WorkerFailed(detail) => WorkerErrorView::WorkerFailed(detail@),
            WorkerError::InvalidRequest(detail) => WorkerErrorView::InvalidRequest(detail@),
            WorkerError::OversizedResponse(cap) => WorkerErrorView::OversizedResponse(cap),
            WorkerError::ShuttingDown => WorkerErrorView::ShuttingDown,
            WorkerError::Overloaded => WorkerErrorView::Overloaded,
        }
    }
}

impl Clone for WorkerError {
    fn clone(&self) -> (res: Self)
        ensures
            res@ == self@,
    {
        match self {
            WorkerError::Unavailable(detail) => WorkerError::Unavailable(detail.clone()),
            WorkerError::StartupTimeout(limit) => WorkerError::StartupTimeout(*limit),
            WorkerError::StartupFailed(detail) => WorkerError::StartupFailed(detail.clone()),
            WorkerError::InferenceTimeout(limit) => WorkerError::InferenceTimeout(*limit),
            WorkerError::WorkerFailed(detail) => WorkerError::WorkerFailed(detail.clone()),
            WorkerError::InvalidRequest(detail) => WorkerError::InvalidRequest(detail.clone()),
            WorkerError::OversizedResponse(cap) => WorkerError::OversizedResponse(*cap),
            WorkerError::ShuttingDown => WorkerError::ShuttingDown,
            WorkerError::Overloaded => WorkerError::Overloaded,
        }
    }
}

impl WorkerErrorView {
    /// The machine-readable code of the error.
    pub open spec fn code(self) -> Seq<char> {
        match self {
            WorkerErrorView::Unavailable(_) | WorkerErrorView::ShuttingDown => "unavailable"@,
            WorkerErrorView::StartupTimeout(_)
            | WorkerErrorView::StartupFailed(_) => "startup_failed"@,
            WorkerErrorView::InferenceTimeout(_) => "inference_timeout"@,
            WorkerErrorView::WorkerFailed(_) => "worker_failed"@,
            WorkerErrorView::InvalidRequest(_) => "invalid_request"@,
            WorkerErrorView::OversizedResponse(_) => "oversized_response"@,
            WorkerErrorView::Overloaded => "overloaded"@,
        }
    }

    /// The description of the error for people.
    pub open spec fn text(self) -> Seq<char> {
        match self {
            WorkerErrorView::Unavailable(detail) => "worker unavailable: "@ + detail,
            WorkerErrorView::StartupTimeout(limit) =>
                "worker did not finish loading the model within "@ + digits(
                    limit.whole_secs() as nat,
                ) + "s"@,
            WorkerErrorView::StartupFailed(detail) => "worker failed to start: "@ + detail,
            WorkerErrorView::InferenceTimeout(limit) => "inference exceeded the "@ + digits(
                limit.whole_secs() as nat,
            ) + "s deadline"@,
            WorkerErrorView::WorkerFailed(detail) => "worker failed: "@ + detail,
            WorkerErrorView::InvalidRequest(detail) => detail,
            WorkerErrorView::OversizedResponse(cap) => "worker response exceeded "@ + digits(
                cap as nat,
            ) + " bytes"@,
            WorkerErrorView::ShuttingDown => "daemon is shutting down"@,
            WorkerErrorView::Overloaded => "too many predictions in flight, retry shortly"@,
        }
    }

    /// Whether the error says that the resident worker broke.
    pub open spec fn is_worker_fault(self) -> bool {
        match self {
            WorkerErrorView::StartupTimeout(_)
            | WorkerErrorView::StartupFailed(_)
            | WorkerErrorView::InferenceTimeout(_)
            | WorkerErrorView::WorkerFailed(_)
            | WorkerErrorView::OversizedResponse(_) => true,
            _ => false,
        }
    }
}

impl WorkerError {
    /// Stable machine-readable code used in JSON error bodies.
    pub fn kind(&self) -> (res: &'static str)
        ensures
            res@ == self@.code(),
    {
        match self {
            WorkerError::Unavailable(_) | WorkerError::ShuttingDown => "unavailable",
            WorkerError::StartupTimeout(_) | WorkerError::StartupFailed(_) => "startup_failed",
            WorkerError::InferenceTimeout(_) => "inference_timeout",
            WorkerError::WorkerFailed(_) => "worker_failed",
            WorkerError::InvalidRequest(_) => "invalid_request",
            WorkerError::OversizedResponse(_) => "oversized_response",
            WorkerError::Overloaded => "overloaded",
        }
    }

    /// Description of the error for people.
    pub fn message(&self) -> (res: String)
        ensures
            res@ == self@.text(),
    {
        match self {
            WorkerError::Unavailable(detail) => join2("worker unavailable: ", detail.as_str()),
            WorkerError::StartupTimeout(limit) => join3(
                "worker did not finish loading the model within ",
                decimal(limit.as_secs()).as_str(),
                "s",
            ),
            WorkerError::StartupFailed(detail) => join2(
                "worker failed to start: ",
                detail.as_str(),
            ),
            WorkerError::InferenceTimeout(limit) => join3(
                "inference exceeded the ",
                decimal(limit.as_secs()).as_str(),
                "s deadline",
            ),
            WorkerError::WorkerFailed(detail) => join2("worker failed: ", detail.as_str()),
            WorkerError::InvalidRequest(detail) => detail.clone(),
            WorkerError::OversizedResponse(cap) => join3(
                "worker response exceeded ",
                decimal(*cap as u64).as_str(),
                " bytes",
            ),
            WorkerError::ShuttingDown => "daemon is shutting down".to_owned(),
            WorkerError::Overloaded => "too many predictions in flight, retry shortly".to_owned(),
        }
    }

    /// Whether the failure means the resident worker is no longer trustworthy.
    pub fn invalidates_worker(&self) -> (res: bool)
        ensures
            res == self@.is_worker_fault(),
    {
        match self {
            WorkerError::StartupTimeout(_)
            | WorkerError::StartupFailed(_)
            | WorkerError::InferenceTimeout(_)
            | WorkerError::WorkerFailed(_)
            | WorkerError::OversizedResponse(_) => true,
            _ => false,
        }
    }
}

/// Readiness and metadata reported by the worker's ready frame.
#[derive(Debug)]
pub struct WorkerInfo {
    pub pid: u32,
    pub model: String,
    pub checkpoint: String,
    pub device: String,
    pub requested_device: String,
    pub laya_version: String,
    pub warmup: Vec<String>,
}

/// The mathematical reading of a [`WorkerInfo`].
pub struct WorkerInfoView {
    pub pid: u32,
    pub model: Seq<char>,
    pub checkpoint: Seq<char>,
    pub device: Seq<char>,
    pub requested_device: Seq<char>,
    pub laya_version: Seq<char>,
    pub warmup: Seq<Seq<char>>,
}

impl View for WorkerInfo {
    type V = WorkerInfoView;

    open spec fn view(&self) -> WorkerInfoView {
        WorkerInfoView {
            pid: self.pid,
            model: self.model@,
            checkpoint: self.checkpoint@,
            device: self.device@,
            requested_device: self.requested_device@,
            laya_version: self.laya_version@,
            warmup: texts(self.warmup@),
        }
    }
}

impl Clone for WorkerInfo {
    fn clone(&self) -> (res: Self)
        ensures
            res@ == self@,
    {
        WorkerInfo {
            pid: self.pid,
            model: self.model.clone(),
            checkpoint: self.checkpoint.clone(),
            device: self.device.clone(),
            requested_device: self.requested_device.clone(),
            laya_version: self.laya_version.clone(),
            warmup: clone_texts(&self.warmup),
        }
    }
}

/// The strings among a list of JSON values, in order.
pub open spec fn text_items(items: Seq<JsonView>) -> Seq<Seq<char>>
    decreases items.len(),
{
    if items.len() == 0 {
        Seq::empty()
    } else {
        match text_of(items.last()) {
            Some(text) => text_items(items.drop_last()).push(text),
            None => text_items(items.drop_last()),
        }
    }
}

/// The string in the field `key`, or the empty string.
pub open spec fn text_or_empty(tree: JsonView, key: Seq<char>) -> Seq<char> {
    match text_field(tree, key) {
        Some(text) => text,
        None => Seq::empty(),
    }
}

/// `text`, or `fallback` where `text` is empty.
pub open spec fn unless_empty(text: Seq<char>, fallback: Seq<char>) -> Seq<char> {
    if text.len() == 0 {
        fallback
    } else {
        text
    }
}

/// What a ready frame tells of the worker.
pub open spec fn ready_info(tree: JsonView) -> WorkerInfoView {
    WorkerInfoView {
        pid: match unsigned_field(tree, "pid"@) {
            Some(pid) => pid as u32,
            None => 0,
        },
        model: text_or_empty(tree, "model"@),
        checkpoint: unless_empty(text_or_empty(tree, "checkpoint"@), "english"@),
        device: unless_empty(text_or_empty(tree, "device"@), "unknown"@),
        requested_device: text_or_empty(tree, "requested_device"@),
        laya_version: text_or_empty(tree, "laya_version"@),
        warmup: match field(tree, "warmup"@) {
            Some(JsonView::List(items)) => text_items(items),
            _ => Seq::empty(),
        },
    }
}

/// Why a frame is no valid ready frame, if it is not one.
pub open spec fn ready_fault(tree: JsonView) -> Option<Seq<char>> {
    match bool_field(tree, "ready"@) {
        None => Some("worker frame is missing ready=true"@),
        Some(false) => match field(tree, "error"@) {
            Some(error) => match text_field(error, "message"@) {
                Some(detail) => Some(detail),
                None => Some("worker reported that it could not start"@),
            },
            None => Some("worker reported that it could not start"@),
        },
        Some(true) => if has_id(tree) {
            Some("ready frame must not carry a request id"@)
        } else if !has_worker_pid(tree) {
            Some("ready frame is missing a valid worker pid"@)
        } else if ready_info(tree).device == "unknown"@ {
            Some("ready frame is missing the actual device"@)
        } else {
            None
        },
    }
}

/// Whether a frame carries an id other than `null`.
pub open spec fn has_id(tree: JsonView) -> bool {
    match field(tree, "id"@) {
        Some(id) => !(id is Null),
        None => false,
    }
}

/// Whether a frame names a process id, a positive number of 32 bits.
pub open spec fn has_worker_pid(tree: JsonView) -> bool {
    match unsigned_field(tree, "pid"@) {
        Some(pid) => 0 < pid <= u32::MAX,
        None => false,
    }
}

fn field_text(value: &Json, key: &str) -> (res: String)
    ensures
        res@ == text_or_empty(value@, key@),
{
    match value.str_field(key) {
        Some(text) => text.to_owned(),
        None => String::new(),
    }
}

fn filled(text: String, fallback: &str) -> (res: String)
    ensures
        res@ == unless_empty(text@, fallback@),
{
    if text.as_str().is_empty() {
        fallback.to_owned()
    } else {
        text
    }
}

fn texts_among(items: &Vec<Json>) -> (res: Vec<String>)
    ensures
        texts(res@) == text_items(item_trees(items@)),
{
    let mut found: Vec<String> = Vec::new();
    let mut i: usize = 0;
    let ghost trees = item_trees(items@);
    assert(trees.take(0) =~= Seq::empty());
    assert(texts(found@) =~= Seq::empty());
    while i < items.len()
        invariant
            i <= items.len(),
            trees == item_trees(items@),
            texts(found@) == text_items(trees.take(i as int)),
        decreases items.len() - i,
    {
        assert(trees.take(i + 1).drop_last() =~= trees.take(i as int));
        assert(trees.take(i + 1).last() == items@[i as int]@);
        let ghost before = found@;
        if let Some(text) = items[i].as_str() {
            found.push(text.to_owned());
            assert(texts(found@) =~= texts(before).push(text@));
        }
        i = i + 1;
    }
    assert(trees.take(i as int) =~= trees);
    found
}

impl WorkerInfo {
    /// Metadata of a worker in process `pid` of which nothing else is known.
    pub fn unreported(pid: u32) -> (res: Self)
        ensures
            res@ == (WorkerInfoView {
                pid,
                model: Seq::empty(),
                checkpoint: "english"@,
                device: "unknown"@,
                requested_device: "unknown"@,
                laya_version: Seq::empty(),
                warmup: Seq::empty(),
            }),
    {
        let res = WorkerInfo {
            pid,
            model: String::new(),
            checkpoint: "english".to_owned(),
            device: "unknown".to_owned(),
            requested_device: "unknown".to_owned(),
            laya_version: String::new(),
            warmup: Vec::new(),
        };
        assert(res@.warmup =~= Seq::empty());
        res
    }

    /// Parse the free-form ready frame, tolerating a worker that omits fields.
    pub fn from_ready(value: &Json) -> (res: Self)
        ensures
            res@ == ready_info(value@),
    {
        let warmup: Vec<String> = match value.get("warmup") {
            Some(list) => match list.as_list() {
                Some(items) => texts_among(items),
                None => Vec::new(),
            },
            None => Vec::new(),
        };
        let pid: u32 = match value.u64_field("pid") {
            Some(pid) => #[verifier::truncate] (pid as u32),
            None => 0,
        };
        let res = WorkerInfo {
            pid,
            model: field_text(value, "model"),
            checkpoint: filled(field_text(value, "checkpoint"), "english"),
            device: filled(field_text(value, "device"), "unknown"),
            requested_device: field_text(value, "requested_device"),
            laya_version: field_text(value, "laya_version"),
            warmup,
        };
        assert(res@.warmup =~= ready_info(value@).warmup);
        res
    }

    /// Stable identity of the resident model process.
    pub fn identity(&self) -> (res: String)
        ensures
            res@ == self@.name(),
    {
        join5(
            decimal(self.pid as u64).as_str(),
            ":",
            self.device.as_str(),
            ":",
            self.checkpoint.as_str(),
        )
    }
}

impl WorkerInfoView {
    /// The identity of the worker: process id, device and checkpoint.
    pub open spec fn name(self) -> Seq<char> {
        digits(self.pid as nat) + ":"@ + self.device + ":"@ + self.checkpoint
    }
}

/// Whether a frame carries an id other than `null`.
pub fn carries_id(value: &Json) -> (res: bool)
    ensures
        res == has_id(value@),
{
    match value.get("id") {
        Some(id) => !id.is_null(),
        None => false,
    }
}

/// Ready frame validation: the metadata of a worker that is ready, or what is wrong.
pub fn parse_ready(value: &Json) -> (res: Result<WorkerInfo, String>)
    ensures
        match res {
            Ok(info) => ready_fault(value@) is None && info@ == ready_info(value@),
            Err(fault) => ready_fault(value@) == Some(fault@),
        },
{
    match value.bool_field("ready") {
        Some(true) => {},
        Some(false) => {
            if let Some(error) = value.get("error") {
                if let Some(detail) = error.str_field("message") {
                    return Err(detail.to_owned());
                }
            }
            return Err("worker reported that it could not start".to_owned());
        },
        None => return Err("worker frame is missing ready=true".to_owned()),
    }
    if carries_id(value) {
        return Err("ready frame must not carry a request id".to_owned());
    }
    let named: bool = match value.u64_field("pid") {
        Some(pid) => 0 < pid && pid <= 0xffff_ffff,
        None => false,
    };
    if !named {
        return Err("ready frame is missing a valid worker pid".to_owned());
    }
    let info = WorkerInfo::from_ready(value);
    if same_text(info.device.as_str(), "unknown") {
        return Err("ready frame is missing the actual device".to_owned());
    }
    Ok(info)
}

/// A worker that is accepted as ready has told its actual process id and device.
pub proof fn lemma_ready_worker_is_identified(tree: JsonView)
    requires
        ready_fault(tree) is None,
    ensures
        unsigned_field(tree, "pid"@) == Some(ready_info(tree).pid as u64),
        ready_info(tree).pid > 0,
        ready_info(tree).device.len() > 0,
        ready_info(tree).device != "unknown"@,
        text_field(tree, "device"@) == Some(ready_info(tree).device),
{
    let pid = unsigned_field(tree, "pid"@)->0;
    assert(pid as u32 == pid);
    reveal_strlit("unknown");
}

/// Why the initial model load did not complete.
#[derive(Debug)]
pub enum StartError {
    Timeout(Duration),
    Failed(String),
}

/// The mathematical reading of a [`StartError`].
pub enum StartErrorView {
    Timeout(Duration),
    Failed(Seq<char>),
}

impl View for StartError {
    type V = StartErrorView;

    open spec fn view(&self) -> StartErrorView {
        match *self {
            StartError::Timeout(limit) => StartErrorView::Timeout(limit),
            StartError::Failed(detail) => StartErrorView::Failed(detail@),
        }
    }
}

impl Clone for StartError {
    fn clone(&self) -> (res: Self)
        ensures
            res@ == self@,
    {
        match self {
            StartError::Timeout(limit) => StartError::Timeout(*limit),
            StartError::Failed(detail) => StartError::Failed(detail.clone()),
        }
    }
}

impl StartError {
    /// The error as the API layer sees it.
    pub fn into_worker_error(self) -> (res: WorkerError)
        ensures
            res@ == self@.as_worker_error(),
    {
        match self {
            StartError::Timeout(limit) => WorkerError::StartupTimeout(limit),
            StartError::Failed(detail) => WorkerError::StartupFailed(detail),
        }
    }
}

impl StartErrorView {
    /// The error as the API layer sees it.
    pub open spec fn as_worker_error(self) -> WorkerErrorView {
        match self {
            StartErrorView::Timeout(limit) => WorkerErrorView::StartupTimeout(limit),
            StartErrorView::Failed(detail) => WorkerErrorView::StartupFailed(detail),
        }
    }
}

/// Lifecycle of the resident worker, as reported by `/readyz`.
#[derive(Debug, PartialEq, Eq)]
pub enum State {
    Starting,
    Pending(String),
    Ready,
    Failed(String),
    ShuttingDown,
}

/// The mathematical reading of a [`State`].
pub enum StateView {
    Starting,
    Pending(Seq<char>),
    Ready,
    Failed(Seq<char>),
    ShuttingDown,
}

impl View for State {
    type V = StateView;

    open spec fn view(&self) -> StateView {
        match *self {
            State::Starting => StateView::Starting,
            State::Pending(reason) => StateView::Pending(reason@),
            State::Ready => StateView::Ready,
            State::Failed(reason) => StateView::Failed(reason@),
            State::ShuttingDown => StateView::ShuttingDown,
        }
    }
}

impl Clone for State {
    fn clone(&self) -> (res: Self)
        ensures
            res@ == self@,
    {
        match self {
            State::Starting => State::Starting,
            State::Pending(reason) => State::Pending(reason.clone()),
            State::Ready => State::Ready,
            State::Failed(reason) => State::Failed(reason.clone()),
            State::ShuttingDown => State::ShuttingDown,
        }
    }
}

/// A frame that says it is ready under no id, with a process id of 32 bits and the name of an
/// actual device, has no fault, whichever device it is, and the worker is known by them.
pub proof fn lemma_ready_frame_is_complete(tree: JsonView, pid: u64, device: Seq<char>)
    requires
        bool_field(tree, "ready"@) == Some(true),
        field(tree, "id"@) is None || field(tree, "id"@) == Some(JsonView::Null),
        unsigned_field(tree, "pid"@) == Some(pid),
        0 < pid <= u32::MAX,
        text_field(tree, "device"@) == Some(device),
        device.len() > 0,
        device != "unknown"@,
    ensures
        ready_fault(tree) is None,
        ready_info(tree).pid == pid,
        ready_info(tree).device == device,
{
    assert(pid as u32 == pid);
}

/// What a ready frame tells besides is kept as it is told; what it does not tell is empty, and
/// the checkpoint is then the English one.
pub proof fn lemma_ready_frame_is_kept(tree: JsonView, name: Seq<char>)
    ensures
        text_field(tree, "model"@) == Some(name) ==> ready_info(tree).model == name,
        text_field(tree, "model"@) is None ==> ready_info(tree).model.len() == 0,
        text_field(tree, "checkpoint"@) == Some(name) && name.len() > 0
            ==> ready_info(tree).checkpoint == name,
        text_field(tree, "checkpoint"@) is None ==> ready_info(tree).checkpoint == "english"@,
        text_field(tree, "requested_device"@) == Some(name) ==> ready_info(tree).requested_device
            == name,
        text_field(tree, "requested_device"@) is None ==> ready_info(tree).requested_device.len()
            == 0,
        text_field(tree, "laya_version"@) == Some(name) ==> ready_info(tree).laya_version == name,
        text_field(tree, "laya_version"@) is None ==> ready_info(tree).laya_version.len() == 0,
{
}

/// The strings among values are all of them, in order, where all values are strings; any other
/// value is left out.
pub proof fn lemma_strings_are_picked_out(items: Seq<JsonView>, item: JsonView)
    ensures
        (forall|i: int| 0 <= i < items.len() ==> (#[trigger] items[i]) is Text) ==> text_items(
            items,
        ).len() == items.len() && forall|i: int|
            0 <= i < items.len() ==> JsonView::Text(#[trigger] text_items(items)[i]) == items[i],
        !(item is Text) ==> text_items(items.push(item)) == text_items(items),
    decreases items.len(),
{
    assert(items.push(item).drop_last() =~= items);
    if items.len() > 0 {
        let front = items.drop_last();
        lemma_strings_are_picked_out(front, item);
        if forall|i: int| 0 <= i < items.len() ==> (#[trigger] items[i]) is Text {
            assert forall|i: int| 0 <= i < front.len() implies (#[trigger] front[i]) is Text by {
                assert(items[i] is Text);
            }
            assert(items[items.len() - 1] is Text);
            assert forall|i: int| 0 <= i < items.len() implies JsonView::Text(
                #[trigger] text_items(items)[i],
            ) == items[i] by {
                if i < front.len() {
                    assert(text_items(items)[i] == text_items(front)[i]);
                    assert(front[i] == items[i]);
                }
            }
        }
    }
}

/// The warmup list of a ready frame is kept as it is told.
pub proof fn lemma_warmup_is_kept(tree: JsonView, items: Seq<JsonView>)
    requires
        field(tree, "warmup"@) == Some(JsonView::List(items)),
        forall|i: int| 0 <= i < items.len() ==> (#[trigger] items[i]) is Text,
    ensures
        ready_info(tree).warmup.len() == items.len(),
        forall|i: int|
            0 <= i < items.len() ==> JsonView::Text(#[trigger] ready_info(tree).warmup[i])
                == items[i],
{
    lemma_strings_are_picked_out(items, JsonView::Null);
    let warmup = ready_info(tree).warmup;
    assert(warmup == text_items(items));
}

/// A worker that says that it is not ready is refused in its own words, where it has any.
pub proof fn lemma_failed_start_is_told_in_its_words(tree: JsonView, detail: Seq<char>)
    requires
        bool_field(tree, "ready"@) == Some(false),
    ensures
        ready_fault(tree) is Some,
        (field(tree, "error"@) matches Some(error) && text_field(error, "message"@) == Some(detail))
            ==> ready_fault(tree) == Some(detail),
{
}

/// Each error has the code by which callers tell it apart, and the codes of different kinds of
/// errors differ, but for those of a worker that is not there and of one that did not start.
pub proof fn lemma_error_codes(detail: Seq<char>, limit: Duration, cap: usize)
    ensures
        WorkerErrorView::Unavailable(detail).code() == "unavailable"@,
        WorkerErrorView::ShuttingDown.code() == "unavailable"@,
        WorkerErrorView::StartupTimeout(limit).code() == "startup_failed"@,
        WorkerErrorView::StartupFailed(detail).code() == "startup_failed"@,
        WorkerErrorView::InferenceTimeout(limit).code() == "inference_timeout"@,
        WorkerErrorView::WorkerFailed(detail).code() == "worker_failed"@,
        WorkerErrorView::InvalidRequest(detail).code() == "invalid_request"@,
        WorkerErrorView::OversizedResponse(cap).code() == "oversized_response"@,
        WorkerErrorView::Overloaded.code() == "overloaded"@,
{
}

/// The description of an error ends in the detail that is known of it, names the limit in
/// question in whole seconds or bytes, and is the worker's own where it refused the request.
pub proof fn lemma_error_texts(detail: Seq<char>, millis: u64, cap: usize)
    ensures
        WorkerErrorView::InvalidRequest(detail).text() == detail,
        WorkerErrorView::Unavailable(detail).text() == "worker unavailable: "@ + detail,
        WorkerErrorView::StartupFailed(detail).text() == "worker failed to start: "@ + detail,
        WorkerErrorView::WorkerFailed(detail).text() == "worker failed: "@ + detail,
        WorkerErrorView::StartupTimeout(Duration::of_millis(millis)).text()
            == "worker did not finish loading the model within "@ + digits((millis / 1000) as nat)
            + "s"@,
        WorkerErrorView::InferenceTimeout(Duration::of_millis(millis)).text()
            == "inference exceeded the "@ + digits((millis / 1000) as nat) + "s deadline"@,
        WorkerErrorView::OversizedResponse(cap).text() == "worker response exceeded "@ + digits(
            cap as nat,
        ) + " bytes"@,
        WorkerErrorView::ShuttingDown.text() == "daemon is shutting down"@,
        WorkerErrorView::Overloaded.text() == "too many predictions in flight, retry shortly"@,
{
}

/// The worker is not to be trusted any more exactly after an error that it caused: one in
/// starting, one of a deadline, one of its own or one of its reply.
pub proof fn lemma_faults_of_the_worker(error: WorkerErrorView)
    ensures
        error.is_worker_fault() <==> !(error is Unavailable || error is InvalidRequest
            || error is ShuttingDown || error is Overloaded),
{
}

/// An error in starting is told to callers with what is known of it.
pub proof fn lemma_start_errors_are_told(detail: Seq<char>, limit: Duration)
    ensures
        StartErrorView::Failed(detail).as_worker_error() == WorkerErrorView::StartupFailed(detail),
        StartErrorView::Timeout(limit).as_worker_error() == WorkerErrorView::StartupTimeout(limit),
{
}

/// A ready frame that leaves out the device, the checkpoint or the process id, or leaves them
/// empty, tells of none.
pub proof fn lemma_missing_metadata(tree: JsonView)
    ensures
        text_field(tree, "device"@) is None || text_field(tree, "device"@)->0.len() == 0
            ==> ready_info(tree).device == "unknown"@,
        text_field(tree, "checkpoint"@) is None || text_field(tree, "checkpoint"@)->0.len() == 0
            ==> ready_info(tree).checkpoint == "english"@,
        unsigned_field(tree, "pid"@) is None ==> ready_info(tree).pid == 0,
        !(field(tree, "warmup"@) matches Some(JsonView::List(_))) ==> ready_info(
            tree,
        ).warmup.len() == 0,
{
}

/// What is wrong with a ready frame is told: no ready mark, a request id, no process id, no device.
pub proof fn lemma_ready_faults_say_what(tree: JsonView)
    ensures
        bool_field(tree, "ready"@) is None ==> ready_fault(tree) == Some(
            "worker frame is missing ready=true"@,
        ),
        bool_field(tree, "ready"@) == Some(false) && !(field(tree, "error"@) matches Some(error)
            && text_field(error, "message"@) is Some) ==> ready_fault(tree) == Some(
            "worker reported that it could not start"@,
        ),
        bool_field(tree, "ready"@) == Some(true) ==> {
            let id = field(tree, "id"@) is Some && field(tree, "id"@) != Some(JsonView::Null);
            let pid = unsigned_field(tree, "pid"@);
            let named = pid is Some && 0 < pid->0 <= u32::MAX;
            &&& id ==> ready_fault(tree) == Some("ready frame must not carry a request id"@)
            &&& !id && !named ==> ready_fault(tree) == Some(
                "ready frame is missing a valid worker pid"@,
            )
            &&& !id && named && (text_field(tree, "device"@) is None || text_field(tree, "device"@)
                == Some("unknown"@)) ==> ready_fault(tree) == Some(
                "ready frame is missing the actual device"@,
            )
        },
{
    reveal_strlit("unknown");
}

} // verus!
