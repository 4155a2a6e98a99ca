//! Reply frames of the worker.

use vstd::prelude::*;

use crate::codec::mismatch;
use crate::codec::mismatch_text;
use crate::json::bool_field;
use crate::json::field;
use crate::json::item_trees;
use crate::json::text_field;
use crate::json::Json;
use crate::json::JsonObject;
use crate::json::JsonView;
use crate::text::decimal;
use crate::text::digits;
use crate::text::join2;
use crate::text::join3;
use crate::text::same_text;
use crate::worker::WorkerError;
use crate::worker::WorkerErrorView;

verus! {

/// What a worker says of a request that it did not answer.
#[derive(Debug)]
pub struct ErrorBody {
    pub code: Option<String>,
    pub message: Option<String>,
    /// The worker marked this failure as fatal: its resident state can no longer be trusted,
    /// so the daemon tears it down instead of trusting what follows on the stream.
    pub fatal: bool,
}

/// The mathematical reading of an [`ErrorBody`].
pub struct ErrorBodyView {
    pub code: Option<Seq<char>>,
    pub message: Option<Seq<char>>,
    pub fatal: bool,
}

/// The body of a reply frame.
#[derive(Debug)]
pub enum Reply {
    Answer(Json),
    Refusal(ErrorBody),
}

/// The mathematical reading of a [`Reply`].
pub enum ReplyView {
    Answer(JsonView),
    Refusal(ErrorBodyView),
}

/// A reply frame.
#[derive(Debug)]
pub struct ParsedReply {
    pub id: String,
    pub body: Reply,
}

/// The mathematical reading of a [`ParsedReply`].
pub struct ParsedReplyView {
    pub id: Seq<char>,
    pub body: ReplyView,
}

/// The characters of an optional string.
pub open spec fn option_text(value: Option<String>) -> Option<Seq<char>> {
    match value {
        Some(text) => Some(text@),
        None => None,
    }
}

impl View for ErrorBody {
    type V = ErrorBodyView;

    open spec fn view(&self) -> ErrorBodyView {
        ErrorBodyView {
            code: option_text(self.code),
            message: option_text(self.message),
            fatal: self.fatal,
        }
    }
}

impl View for Reply {
    type V = ReplyView;

    open spec fn view(&self) -> ReplyView {
        match *self {
            Reply::Answer(result) => ReplyView::Answer(result@),
            Reply::Refusal(body) => ReplyView::Refusal(body@),
        }
    }
}

impl View for ParsedReply {
    type V = ParsedReplyView;

    open spec fn view(&self) -> ParsedReplyView {
        ParsedReplyView { id: self.id@, body: self.body@ }
    }
}

/// Reads a JSON value that is a string or `null`.
pub open spec fn nullable_text(tree: JsonView) -> Result<Option<Seq<char>>, Seq<char>> {
    match tree {
        JsonView::Text(text) => Ok(Some(text)),
        JsonView::Null => Ok(None),
        _ => Err(mismatch_text(tree, "a string"@)),
    }
}

/// Reads a JSON value that is a boolean.
pub open spec fn flag(tree: JsonView) -> Result<bool, Seq<char>> {
    match tree {
        JsonView::Bool(b) => Ok(b),
        _ => Err(mismatch_text(tree, "a boolean"@)),
    }
}

/// Reads a field that is a string, `null` or missing.
pub open spec fn text_member(
    fields: Map<Seq<char>, JsonView>,
    key: Seq<char>,
) -> Result<Option<Seq<char>>, Seq<char>> {
    if fields.contains_key(key) {
        nullable_text(fields[key])
    } else {
        Ok(None)
    }
}

/// Reads a field that is a boolean; one that is missing counts as `false`.
pub open spec fn flag_member(
    fields: Map<Seq<char>, JsonView>,
    key: Seq<char>,
) -> Result<bool, Seq<char>> {
    if fields.contains_key(key) {
        flag(fields[key])
    } else {
        Ok(false)
    }
}

/// Reads an error object, in the order of its field names.
pub open spec fn error_fields(fields: Map<Seq<char>, JsonView>) -> Result<
    ErrorBodyView,
    Seq<char>,
> {
    match text_member(fields, "code"@) {
        Err(fault) => Err(fault),
        Ok(code) => match flag_member(fields, "fatal"@) {
            Err(fault) => Err(fault),
            Ok(fatal) => match text_member(fields, "message"@) {
                Err(fault) => Err(fault),
                Ok(message) => Ok(ErrorBodyView { code, message, fatal }),
            },
        },
    }
}

/// What there is to say of a list of the wrong length.
pub open spec fn length_fault(len: nat, expected: Seq<char>) -> Seq<char> {
    "invalid length "@ + digits(len) + ", expected "@ + expected
}

/// Reads an error that is written as the list of code, message and fatal mark, the last of
/// which may be left out.
pub open spec fn error_items(items: Seq<JsonView>) -> Result<ErrorBodyView, Seq<char>> {
    if items.len() == 0 {
        Err(length_fault(0, "struct ErrorBody with 3 elements"@))
    } else {
        match nullable_text(items[0]) {
            Err(fault) => Err(fault),
            Ok(code) => if items.len() == 1 {
                Err(length_fault(1, "struct ErrorBody with 3 elements"@))
            } else {
                match nullable_text(items[1]) {
                    Err(fault) => Err(fault),
                    Ok(message) => if items.len() == 2 {
                        Ok(ErrorBodyView { code, message, fatal: false })
                    } else {
                        match flag(items[2]) {
                            Err(fault) => Err(fault),
                            Ok(fatal) => if items.len() > 3 {
                                Err(length_fault(items.len(), "fewer elements in array"@))
                            } else {
                                Ok(ErrorBodyView { code, message, fatal })
                            },
                        }
                    },
                }
            },
        }
    }
}

/// Reads what a worker says of a request that it did not answer.
pub open spec fn error_body(tree: JsonView) -> Result<ErrorBodyView, Seq<char>> {
    match tree {
        JsonView::Object(fields) => error_fields(fields),
        JsonView::List(items) => error_items(items),
        _ => Err(mismatch_text(tree, "struct ErrorBody"@)),
    }
}

/// The error of a frame; a frame without one has an empty error.
pub open spec fn stated_error(tree: JsonView) -> Result<ErrorBodyView, Seq<char>> {
    match field(tree, "error"@) {
        Some(error) => error_body(error),
        None => Ok(ErrorBodyView { code: None, message: None, fatal: false }),
    }
}

/// What a frame says as a reply, or why it is none.
pub open spec fn reply_of(tree: JsonView) -> Result<ParsedReplyView, Seq<char>> {
    match text_field(tree, "id"@) {
        None => Err("reply frame has no string id"@),
        Some(id) => match bool_field(tree, "ok"@) {
            None => Err("reply frame has no boolean ok field"@),
            Some(true) => match field(tree, "result"@) {
                Some(result) => Ok(ParsedReplyView { id, body: ReplyView::Answer(result) }),
                None => Err("ok reply has no result"@),
            },
            Some(false) => match stated_error(tree) {
                Err(fault) => Err("malformed error object: "@ + fault),
                Ok(body) => Ok(
                    ParsedReplyView {
                        id,
                        body: ReplyView::Refusal(
                            ErrorBodyView {
                                fatal: body.fatal || bool_field(tree, "fatal"@) == Some(true),
                                ..body
                            },
                        ),
                    },
                ),
            },
        },
    }
}

impl ErrorBodyView {
    /// The error that the caller of the request gets.
    pub open spec fn as_worker_error(self) -> WorkerErrorView {
        let message = match self.message {
            Some(message) => message,
            None => "worker rejected the request"@,
        };
        if self.code == Some("invalid_request"@) || self.code == Some("validation"@) {
            WorkerErrorView::InvalidRequest(message)
        } else {
            WorkerErrorView::WorkerFailed(message)
        }
    }
}

impl ReplyView {
    /// What the caller of the request gets.
    pub open spec fn as_result(self) -> Result<JsonView, WorkerErrorView> {
        match self {
            ReplyView::Answer(result) => Ok(result),
            ReplyView::Refusal(body) => Err(body.as_worker_error()),
        }
    }

    /// Whether the worker declared itself unusable.
    pub open spec fn is_fatal(self) -> bool {
        match self {
            ReplyView::Answer(_) => false,
            ReplyView::Refusal(body) => body.fatal,
        }
    }
}

fn read_text(value: &Json) -> (res: Result<Option<String>, String>)
    ensures
        match res {
            Ok(text) => nullable_text(value@) == Ok::<Option<Seq<char>>, Seq<char>>(
                option_text(text),
            ),
            Err(fault) => nullable_text(value@) == Err::<Option<Seq<char>>, Seq<char>>(fault@),
        },
{
    match value {
        Json::Text(text) => Ok(Some(text.clone())),
        Json::Null => Ok(None),
        _ => Err(mismatch(value, "a string")),
    }
}

fn read_flag(value: &Json) -> (res: Result<bool, String>)
    ensures
        match res {
            Ok(b) => flag(value@) == Ok::<bool, Seq<char>>(b),
            Err(fault) => flag(value@) == Err::<bool, Seq<char>>(fault@),
        },
{
    match value {
        Json::Bool(b) => Ok(*b),
        _ => Err(mismatch(value, "a boolean")),
    }
}

fn read_text_member(object: &JsonObject, key: &str) -> (res: Result<Option<String>, String>)
    ensures
        match res {
            Ok(text) => text_member(object@, key@) == Ok::<Option<Seq<char>>, Seq<char>>(
                option_text(text),
            ),
            Err(fault) => text_member(object@, key@) == Err::<Option<Seq<char>>, Seq<char>>(fault@),
        },
{
    match object.get(key) {
        Some(value) => read_text(value),
        None => Ok(None),
    }
}

fn read_flag_member(object: &JsonObject, key: &str) -> (res: Result<bool, String>)
    ensures
        match res {
            Ok(b) => flag_member(object@, key@) == Ok::<bool, Seq<char>>(b),
            Err(fault) => flag_member(object@, key@) == Err::<bool, Seq<char>>(fault@),
        },
{
    match object.get(key) {
        Some(value) => read_flag(value),
        None => Ok(false),
    }
}

fn read_error_fields(object: &JsonObject) -> (res: Result<ErrorBody, String>)
    ensures
        match res {
            Ok(body) => error_fields(object@) == Ok::<ErrorBodyView, Seq<char>>(body@),
            Err(fault) => error_fields(object@) == Err::<ErrorBodyView, Seq<char>>(fault@),
        },
{
    let code = match read_text_member(object, "code") {
        Ok(code) => code,
        Err(fault) => return Err(fault),
    };
    let fatal: bool = match read_flag_member(object, "fatal") {
        Ok(fatal) => fatal,
        Err(fault) => return Err(fault),
    };
    let message = match read_text_member(object, "message") {
        Ok(message) => message,
        Err(fault) => return Err(fault),
    };
    Ok(ErrorBody { code, message, fatal })
}

fn wrong_length(len: usize, expected: &str) -> (res: String)
    ensures
        res@ == length_fault(len as nat, expected@),
{
    let start = join3("invalid length ", decimal(len as u64).as_str(), ", expected ");
    join2(start.as_str(), expected)
}

fn read_error_items(items: &Vec<Json>) -> (res: Result<ErrorBody, String>)
    ensures
        match res {
            Ok(body) => error_items(item_trees(items@)) == Ok::<ErrorBodyView, Seq<char>>(body@),
            Err(fault) => error_items(item_trees(items@)) == Err::<ErrorBodyView, Seq<char>>(
                fault@,
            ),
        },
{
    if items.len() == 0 {
        return Err(wrong_length(0, "struct ErrorBody with 3 elements"));
    }
    let code = match read_text(&items[0]) {
        Ok(code) => code,
        Err(fault) => return Err(fault),
    };
    if items.len() == 1 {
        return Err(wrong_length(1, "struct ErrorBody with 3 elements"));
    }
    let message = match read_text(&items[1]) {
        Ok(message) => message,
        Err(fault) => return Err(fault),
    };
    if items.len() == 2 {
        return Ok(ErrorBody { code, message, fatal: false });
    }
    let fatal: bool = match read_flag(&items[2]) {
        Ok(fatal) => fatal,
        Err(fault) => return Err(fault),
    };
    if items.len() > 3 {
        return Err(wrong_length(items.len(), "fewer elements in array"));
    }
    Ok(ErrorBody { code, message, fatal })
}

fn read_error_body(value: &Json) -> (res: Result<ErrorBody, String>)
    ensures
        match res {
            Ok(body) => error_body(value@) == Ok::<ErrorBodyView, Seq<char>>(body@),
            Err(fault) => error_body(value@) == Err::<ErrorBodyView, Seq<char>>(fault@),
        },
{
    if let Json::Object(object) = value {
        return read_error_fields(object);
    }
    match value.as_list() {
        Some(items) => read_error_items(items),
        None => Err(mismatch(value, "struct ErrorBody")),
    }
}

/// Validate one reply frame.
pub fn parse_reply(value: &Json) -> (res: Result<ParsedReply, String>)
    ensures
        match res {
            Ok(reply) => reply_of(value@) == Ok::<ParsedReplyView, Seq<char>>(reply@),
            Err(fault) => reply_of(value@) == Err::<ParsedReplyView, Seq<char>>(fault@),
        },
{
    let id = match value.str_field("id") {
        Some(id) => id.to_owned(),
        None => return Err("reply frame has no string id".to_owned()),
    };
    match value.bool_field("ok") {
        Some(true) => match value.get("result") {
            Some(result) => Ok(ParsedReply { id, body: Reply::Answer(result.clone()) }),
            None => Err("ok reply has no result".to_owned()),
        },
        Some(false) => {
            let mut body = match value.get("error") {
                Some(error) => match read_error_body(error) {
                    Ok(body) => body,
                    Err(fault) => {
                        return Err(join2("malformed error object: ", fault.as_str()));
                    },
                },
                None => ErrorBody { code: None, message: None, fatal: false },
            };
            if let Some(true) = value.bool_field("fatal") {
                body.fatal = true;
            }
            Ok(ParsedReply { id, body: Reply::Refusal(body) })
        },
        None => Err("reply frame has no boolean ok field".to_owned()),
    }
}

impl ErrorBody {
    /// The error that the caller of the request gets.
    pub fn into_worker_error(self) -> (res: WorkerError)
        ensures
            res@ == self@.as_worker_error(),
    {
        let message = match self.message {
            Some(message) => message,
            None => "worker rejected the request".to_owned(),
        };
        let is_request_fault: bool = match &self.code {
            Some(code) => same_text(code.as_str(), "invalid_request") || same_text(
                code.as_str(),
                "validation",
            ),
            None => false,
        };
        if is_request_fault {
            WorkerError::InvalidRequest(message)
        } else {
            WorkerError::WorkerFailed(message)
        }
    }
}

impl Reply {
    /// Whether the worker declared itself unusable.
    pub fn fatal(&self) -> (res: bool)
        ensures
            res == self@.is_fatal(),
    {
        match self {
            Reply::Answer(_) => false,
            Reply::Refusal(body) => body.fatal,
        }
    }
}

/// An error that is written as a list of code, message and fatal mark says what the object with
/// these fields says; the mark may be left out. A list of any other length is no error.
pub proof fn lemma_listed_errors_say_the_same(
    items: Seq<JsonView>,
    body: ErrorBodyView,
)
    ensures
        items.len() == 2 || items.len() == 3 ==> ({
            let named = Map::empty().insert("code"@, items[0]).insert("message"@, items[1]);
            let fields = if items.len() == 3 {
                named.insert("fatal"@, items[2])
            } else {
                named
            };
            error_body(JsonView::List(items)) == Ok::<ErrorBodyView, Seq<char>>(body)
                <==> error_body(JsonView::Object(fields)) == Ok::<ErrorBodyView, Seq<char>>(body)
        }),
        items.len() < 2 || items.len() > 3 ==> error_body(JsonView::List(items)) is Err,
{
    reveal_strlit("code");
    reveal_strlit("message");
    reveal_strlit("fatal");
    assert("code"@.len() == 4 && "message"@.len() == 7 && "fatal"@.len() == 5);
}

/// An error object is read field by field: a code and a message that are texts are kept, ones that
/// are missing or `null` are not there, and the error is fatal where it is marked so.
pub proof fn lemma_error_objects_are_kept(
    fields: Map<Seq<char>, JsonView>,
    body: ErrorBodyView,
)
    requires
        error_body(JsonView::Object(fields)) == Ok::<ErrorBodyView, Seq<char>>(body),
    ensures
        body.code == text_field(JsonView::Object(fields), "code"@),
        body.message == text_field(JsonView::Object(fields), "message"@),
        body.fatal <==> bool_field(JsonView::Object(fields), "fatal"@) == Some(true),
{
}

} // verus!
