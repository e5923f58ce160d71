//! The line protocol spoken with the worker: one request per line, one
//! response line for each.

use crate::json::{
    error_text, has_other_key, json_text, last_members, lemma_object_view, members_view,
    parse_value, parsed_json, write_value,
    JsonNumber, JsonValue, JsonView, NumberView,
};
use crate::text::{concat, decimal, decimal_string, free_of_line_feeds, same_text};
use vstd::prelude::*;
use vstd::string::*;

verus! {

/// The value of the member `key` among `members`, if there is one. Of
/// members with the same key the last one counts.
pub open spec fn member(members: Seq<(Seq<char>, JsonView)>, key: Seq<char>) -> Option<JsonView>
    decreases members.len(),
{
    if members.len() == 0 {
        None
    } else if members.last().0 == key {
        Some(members.last().1)
    } else {
        member(members.drop_last(), key)
    }
}

proof fn lemma_member_ignores_tail(members: Seq<(Seq<char>, JsonView)>, key: Seq<char>, n: int)
    requires
        0 <= n <= members.len(),
        forall|j: int| n <= j < members.len() ==> members[j].0 != key,
    ensures
        member(members, key) == member(members.take(n), key),
    decreases members.len() - n,
{
    if n == members.len() {
        assert(members.take(n) =~= members);
    } else {
        lemma_member_ignores_tail(members.drop_last(), key, n);
        assert(members.drop_last().take(n) =~= members.take(n));
    }
}

proof fn lemma_member_survives_removal(
    members: Seq<(Seq<char>, JsonView)>,
    key: Seq<char>,
    i: int,
)
    requires
        0 <= i < members.len(),
        members[i].0 != key,
    ensures
        member(members.remove(i), key) == member(members, key),
    decreases members.len(),
{
    if i == members.len() - 1 {
        assert(members.remove(i) =~= members.drop_last());
    } else {
        lemma_member_survives_removal(members.drop_last(), key, i);
        assert(members.remove(i).drop_last() =~= members.drop_last().remove(i));
        assert(members.remove(i).last() == members.last());
    }
}

proof fn lemma_member_survives_filter(
    members: Seq<(Seq<char>, JsonView)>,
    key: Seq<char>,
    dropped: Seq<char>,
)
    requires
        dropped != key,
    ensures
        member(members.filter(has_other_key(dropped)), key) == member(members, key),
    decreases members.len(),
{
    reveal(Seq::filter);
    if members.len() > 0 {
        let rest = members.drop_last();
        lemma_member_survives_filter(rest, key, dropped);
        if has_other_key(dropped)(members.last()) {
            let kept = rest.filter(has_other_key(dropped)).push(members.last());
            assert(kept.drop_last() =~= rest.filter(has_other_key(dropped)));
        }
    }
}

/// Reading and writing agree on which member counts: for every key, what
/// is read from the members that are written is what is read from the
/// members as they stand.
pub proof fn law_written_members_read_the_same(members: Seq<(Seq<char>, JsonView)>, key: Seq<char>)
    ensures
        member(last_members(members), key) == member(members, key),
    decreases members.len(),
{
    if members.len() > 0 {
        let rest = last_members(members.drop_last());
        let last = members.last();
        law_written_members_read_the_same(members.drop_last(), key);
        let kept = rest.filter(has_other_key(last.0)).push(last);
        assert(kept.drop_last() =~= rest.filter(has_other_key(last.0)));
        if last.0 != key {
            lemma_member_survives_filter(rest, key, last.0);
        }
    }
}

/// The view of an optional value.
pub open spec fn opt_json(value: Option<JsonValue>) -> Option<JsonView> {
    match value {
        Some(v) => Some(v@),
        None => None,
    }
}

/// Takes the member `key` out of `members`. What the other keys stand for
/// stays as it was.
fn take_member(members: &mut Vec<(String, JsonValue)>, key: &str) -> (out: Option<JsonValue>)
    ensures
        opt_json(out) == member(members_view(old(members)@), key@),
        forall|other: Seq<char>|
            other != key@ ==> member(members_view(final(members)@), other) == member(
                members_view(old(members)@),
                other,
            ),
{
    let ghost all = members_view(members@);
    let mut i: usize = members.len();
    while i > 0
        invariant
            i <= members.len(),
            all == members_view(members@),
            *members == *old(members),
            forall|j: int| i <= j < members.len() ==> all[j].0 != key@,
        decreases i,
    {
        if same_text(members[i - 1].0.as_str(), key) {
            let taken = members.remove(i - 1);
            proof {
                lemma_member_ignores_tail(all, key@, i as int);
                assert(all.take(i as int).last() == all[i - 1]);
                assert(members_view(members@) =~= all.remove(i - 1));
                assert forall|other: Seq<char>| other != key@ implies member(
                    members_view(members@),
                    other,
                ) == member(all, other) by {
                    lemma_member_survives_removal(all, other, i - 1);
                }
            }
            return Some(taken.1);
        }
        i -= 1;
    }
    proof {
        lemma_member_ignores_tail(all, key@, 0);
        assert(all.take(0) =~= Seq::empty());
    }
    None
}

/// The error that a worker reports for a request.
#[derive(Debug, PartialEq, Eq)]
pub struct RpcError {
    pub code: i32,
    pub message: String,
    pub data: Option<JsonValue>,
}

/// A response of the worker.
#[derive(Debug, PartialEq, Eq)]
pub struct RpcResponse {
    pub jsonrpc: String,
    pub id: Option<u64>,
    pub result: Option<JsonValue>,
    pub error: Option<RpcError>,
}

/// The mathematical form of an [`RpcError`].
pub struct ErrorView {
    pub code: int,
    pub message: Seq<char>,
    pub data: Option<JsonView>,
}

/// The mathematical form of an [`RpcResponse`].
pub struct ResponseView {
    pub jsonrpc: Seq<char>,
    pub id: Option<int>,
    pub result: Option<JsonView>,
    pub error: Option<ErrorView>,
}

impl View for RpcError {
    type V = ErrorView;

    open spec fn view(&self) -> ErrorView {
        ErrorView { code: self.code as int, message: self.message@, data: opt_json(self.data) }
    }
}

impl View for RpcResponse {
    type V = ResponseView;

    open spec fn view(&self) -> ResponseView {
        ResponseView {
            jsonrpc: self.jsonrpc@,
            id: match self.id {
                Some(n) => Some(n as int),
                None => None,
            },
            result: opt_json(self.result),
            error: match self.error {
                Some(e) => Some(e@),
                None => None,
            },
        }
    }
}

/// The members that a response and its error hold.
#[derive(Debug, Clone, Copy, PartialEq, Eq, Structural)]
pub enum Field {
    Jsonrpc,
    Id,
    Error,
    Code,
    Message,
}

/// Why a JSON value is no response.
#[derive(Debug, Clone, Copy, PartialEq, Eq, Structural)]
pub enum EnvelopeError {
    /// The value is not an object.
    NotAnObject,
    /// A member that must be there is not.
    Missing(Field),
    /// A member holds a value of the wrong kind.
    Invalid(Field),
}

/// A member's value, unless it is absent or `null`.
pub open spec fn present(value: Option<JsonView>) -> Option<JsonView> {
    match value {
        Some(JsonView::Null) => None,
        _ => value,
    }
}

/// The error that `value` stands for: an object with an integer `code` of
/// 32 bits, a string `message`, and possibly `data`.
pub open spec fn error_of(value: JsonView) -> Result<ErrorView, EnvelopeError> {
    match value {
        JsonView::Object(members) => match member(members, "code"@) {
            None => Err(EnvelopeError::Missing(Field::Code)),
            Some(JsonView::Number(NumberView::Int(code))) => if i32::MIN <= code <= i32::MAX {
                match member(members, "message"@) {
                    None => Err(EnvelopeError::Missing(Field::Message)),
                    Some(JsonView::Str(message)) => Ok(
                        ErrorView { code, message, data: present(member(members, "data"@)) },
                    ),
                    Some(_) => Err(EnvelopeError::Invalid(Field::Message)),
                }
            } else {
                Err(EnvelopeError::Invalid(Field::Code))
            },
            Some(_) => Err(EnvelopeError::Invalid(Field::Code)),
        },
        _ => Err(EnvelopeError::Invalid(Field::Error)),
    }
}

/// The response that `value` stands for: an object with a string
/// `jsonrpc`; an `id` that is absent, `null` or an unsigned integer of 64
/// bits; any `result`; and an `error` that is absent, `null` or an error
/// object. Members of other names are ignored.
pub open spec fn response_of(value: JsonView) -> Result<ResponseView, EnvelopeError> {
    match value {
        JsonView::Object(members) => match member(members, "jsonrpc"@) {
            None => Err(EnvelopeError::Missing(Field::Jsonrpc)),
            Some(JsonView::Str(jsonrpc)) => {
                let id = match present(member(members, "id"@)) {
                    None => Ok(None),
                    Some(JsonView::Number(NumberView::Int(n))) => if 0 <= n <= u64::MAX {
                        Ok(Some(n))
                    } else {
                        Err(EnvelopeError::Invalid(Field::Id))
                    },
                    Some(_) => Err(EnvelopeError::Invalid(Field::Id)),
                };
                let error = match present(member(members, "error"@)) {
                    None => Ok(None),
                    Some(e) => match error_of(e) {
                        Ok(e) => Ok(Some(e)),
                        Err(why) => Err(why),
                    },
                };
                match (id, error) {
                    (Err(why), _) => Err(why),
                    (_, Err(why)) => Err(why),
                    (Ok(id), Ok(error)) => Ok(
                        ResponseView {
                            jsonrpc,
                            id,
                            result: present(member(members, "result"@)),
                            error,
                        },
                    ),
                }
            },
            Some(_) => Err(EnvelopeError::Invalid(Field::Jsonrpc)),
        },
        _ => Err(EnvelopeError::NotAnObject),
    }
}

/// Drops a value that is `null`.
fn non_null(value: Option<JsonValue>) -> (out: Option<JsonValue>)
    ensures
        opt_json(out) == present(opt_json(value)),
{
    match value {
        Some(JsonValue::Null) => None,
        other => other,
    }
}

/// Reads the error object of a response.
pub fn read_error(value: JsonValue) -> (out: Result<RpcError, EnvelopeError>)
    ensures
        match out {
            Ok(e) => error_of(value@) == Ok::<ErrorView, EnvelopeError>(e@),
            Err(why) => error_of(value@) == Err::<ErrorView, EnvelopeError>(why),
        },
{
    match value {
        JsonValue::Object(members) => {
            proof {
                lemma_object_view(members);
                reveal_strlit("code");
                reveal_strlit("message");
                reveal_strlit("data");
                assert("code"@.len() != "message"@.len());
                assert("code"@[0] != "data"@[0]);
                assert("data"@.len() != "message"@.len());
            }
            let mut members = members;
            let code = match take_member(&mut members, "code") {
                None => {
                    return Err(EnvelopeError::Missing(Field::Code));
                },
                Some(JsonValue::Number(JsonNumber::PosInt(n))) => {
                    if n <= 0x7fff_ffff {
                        n as i32
                    } else {
                        return Err(EnvelopeError::Invalid(Field::Code));
                    }
                },
                Some(JsonValue::Number(JsonNumber::NegInt(n))) => {
                    if n >= -0x8000_0000 && n <= 0x7fff_ffff {
                        n as i32
                    } else {
                        return Err(EnvelopeError::Invalid(Field::Code));
                    }
                },
                Some(_) => {
                    return Err(EnvelopeError::Invalid(Field::Code));
                },
            };
            let message = match take_member(&mut members, "message") {
                None => {
                    return Err(EnvelopeError::Missing(Field::Message));
                },
                Some(JsonValue::Str(m)) => m,
                Some(_) => {
                    return Err(EnvelopeError::Invalid(Field::Message));
                },
            };
            let data = non_null(take_member(&mut members, "data"));
            Ok(RpcError { code, message, data })
        },
        _ => Err(EnvelopeError::Invalid(Field::Error)),
    }
}

/// Reads a response out of a JSON value.
pub fn read_response(value: JsonValue) -> (out: Result<RpcResponse, EnvelopeError>)
    ensures
        match out {
            Ok(r) => response_of(value@) == Ok::<ResponseView, EnvelopeError>(r@),
            Err(why) => response_of(value@) == Err::<ResponseView, EnvelopeError>(why),
        },
{
    match value {
        JsonValue::Object(members) => {
            proof {
                lemma_object_view(members);
                reveal_strlit("jsonrpc");
                reveal_strlit("id");
                reveal_strlit("result");
                reveal_strlit("error");
                assert("jsonrpc"@.len() == 7 && "id"@.len() == 2);
                assert("result"@.len() == 6 && "error"@.len() == 5);
            }
            let mut members = members;
            let jsonrpc = match take_member(&mut members, "jsonrpc") {
                None => {
                    return Err(EnvelopeError::Missing(Field::Jsonrpc));
                },
                Some(JsonValue::Str(version)) => version,
                Some(_) => {
                    return Err(EnvelopeError::Invalid(Field::Jsonrpc));
                },
            };
            let id = match non_null(take_member(&mut members, "id")) {
                None => None,
                Some(JsonValue::Number(JsonNumber::PosInt(n))) => Some(n),
                Some(JsonValue::Number(JsonNumber::NegInt(n))) => {
                    if n >= 0 {
                        Some(n as u64)
                    } else {
                        return Err(EnvelopeError::Invalid(Field::Id));
                    }
                },
                Some(_) => {
                    return Err(EnvelopeError::Invalid(Field::Id));
                },
            };
            let error = match non_null(take_member(&mut members, "error")) {
                None => None,
                Some(e) => match read_error(e) {
                    Ok(e) => Some(e),
                    Err(why) => {
                        return Err(why);
                    },
                },
            };
            let result = non_null(take_member(&mut members, "result"));
            Ok(RpcResponse { jsonrpc, id, result, error })
        },
        _ => Err(EnvelopeError::NotAnObject),
    }
}

impl Field {
    /// The member's name.
    pub open spec fn name(self) -> Seq<char> {
        match self {
            Field::Jsonrpc => "jsonrpc"@,
            Field::Id => "id"@,
            Field::Error => "error"@,
            Field::Code => "code"@,
            Field::Message => "message"@,
        }
    }

    /// The member's name.
    pub fn as_str(&self) -> (out: &'static str)
        ensures
            out@ == self.name(),
    {
        match self {
            Field::Jsonrpc => "jsonrpc",
            Field::Id => "id",
            Field::Error => "error",
            Field::Code => "code",
            Field::Message => "message",
        }
    }
}

impl EnvelopeError {
    /// The wording of this failure.
    pub open spec fn text(self) -> Seq<char> {
        match self {
            EnvelopeError::NotAnObject => "expected a JSON object"@,
            EnvelopeError::Missing(field) => "missing field `"@ + field.name() + "`"@,
            EnvelopeError::Invalid(field) => "invalid value for field `"@ + field.name() + "`"@,
        }
    }

    /// The wording of this failure.
    pub fn message(&self) -> (out: String)
        ensures
            out@ == self.text(),
    {
        match self {
            EnvelopeError::NotAnObject => "expected a JSON object".to_owned(),
            EnvelopeError::Missing(field) => {
                let head = concat("missing field `", field.as_str());
                concat(head.as_str(), "`")
            },
            EnvelopeError::Invalid(field) => {
                let head = concat("invalid value for field `", field.as_str());
                concat(head.as_str(), "`")
            },
        }
    }
}

/// What a call returns for a response: the failure that carries the
/// worker's message if the response reports an error; else the result,
/// which is `null` when the response holds none.
pub open spec fn outcome_of(response: ResponseView) -> Result<JsonView, FailureView> {
    match response.error {
        Some(e) => Err(FailureView::Remote(e.message)),
        None => match response.result {
            Some(r) => Ok(r),
            None => Ok(JsonView::Null),
        },
    }
}

/// Why a call failed. A failure of the channel carries the underlying
/// failure's text; one reported by the worker carries the worker's message.
#[derive(Debug, PartialEq, Eq)]
pub enum ChannelError {
    /// The worker is not running. Holds the reason why the last start
    /// failed, if one did.
    NotStarted(Option<String>),
    /// The worker's input stream is not there.
    StdinUnavailable,
    /// The worker's output stream is not there.
    StdoutUnavailable,
    /// Every request identifier has been used.
    IdentifiersExhausted,
    Serialize(String),
    Write(String),
    Flush(String),
    Read(String),
    Parse(String),
    /// The worker answered with an error.
    Remote(String),
}

/// The mathematical form of a [`ChannelError`].
pub enum FailureView {
    NotStarted(Option<Seq<char>>),
    StdinUnavailable,
    StdoutUnavailable,
    IdentifiersExhausted,
    Serialize(Seq<char>),
    Write(Seq<char>),
    Flush(Seq<char>),
    Read(Seq<char>),
    Parse(Seq<char>),
    Remote(Seq<char>),
}

impl View for ChannelError {
    type V = FailureView;

    open spec fn view(&self) -> FailureView {
        match self {
            ChannelError::NotStarted(None) => FailureView::NotStarted(None),
            ChannelError::NotStarted(Some(reason)) => FailureView::NotStarted(Some(reason@)),
            ChannelError::StdinUnavailable => FailureView::StdinUnavailable,
            ChannelError::StdoutUnavailable => FailureView::StdoutUnavailable,
            ChannelError::IdentifiersExhausted => FailureView::IdentifiersExhausted,
            ChannelError::Serialize(e) => FailureView::Serialize(e@),
            ChannelError::Write(e) => FailureView::Write(e@),
            ChannelError::Flush(e) => FailureView::Flush(e@),
            ChannelError::Read(e) => FailureView::Read(e@),
            ChannelError::Parse(e) => FailureView::Parse(e@),
            ChannelError::Remote(message) => FailureView::Remote(message@),
        }
    }
}

/// The marker of a call made while the worker is not running.
pub open spec fn not_started_marker() -> Seq<char> {
    "Sidecar not started"@
}

impl ChannelError {
    /// The wording of this failure.
    pub open spec fn text(self) -> Seq<char> {
        match self {
            ChannelError::NotStarted(None) => not_started_marker(),
            ChannelError::NotStarted(Some(reason)) => not_started_marker() + ": "@ + reason@,
            ChannelError::StdinUnavailable => "Sidecar stdin not available"@,
            ChannelError::StdoutUnavailable => "Sidecar stdout not available"@,
            ChannelError::IdentifiersExhausted => "Request identifiers exhausted"@,
            ChannelError::Serialize(e) => "Failed to serialize: "@ + e@,
            ChannelError::Write(e) => "Failed to write to sidecar: "@ + e@,
            ChannelError::Flush(e) => "Failed to flush: "@ + e@,
            ChannelError::Read(e) => "Failed to read from sidecar: "@ + e@,
            ChannelError::Parse(e) => "Failed to parse response: "@ + e@,
            ChannelError::Remote(message) => message@,
        }
    }

    /// The wording of this failure. A worker's message is passed on as it
    /// is.
    pub fn message(&self) -> (out: String)
        ensures
            out@ == self.text(),
    {
        match self {
            ChannelError::NotStarted(None) => "Sidecar not started".to_owned(),
            ChannelError::NotStarted(Some(reason)) => {
                let head = concat("Sidecar not started", ": ");
                concat(head.as_str(), reason.as_str())
            },
            ChannelError::StdinUnavailable => "Sidecar stdin not available".to_owned(),
            ChannelError::StdoutUnavailable => "Sidecar stdout not available".to_owned(),
            ChannelError::IdentifiersExhausted => "Request identifiers exhausted".to_owned(),
            ChannelError::Serialize(e) => concat("Failed to serialize: ", e.as_str()),
            ChannelError::Write(e) => concat("Failed to write to sidecar: ", e.as_str()),
            ChannelError::Flush(e) => concat("Failed to flush: ", e.as_str()),
            ChannelError::Read(e) => concat("Failed to read from sidecar: ", e.as_str()),
            ChannelError::Parse(e) => concat("Failed to parse response: ", e.as_str()),
            ChannelError::Remote(message) => message.clone(),
        }
    }
}

/// The view of a call's outcome: the value, or the failure.
pub open spec fn outcome_view(outcome: Result<JsonValue, ChannelError>) -> Result<
    JsonView,
    FailureView,
> {
    match outcome {
        Ok(v) => Ok(v@),
        Err(e) => Err(e@),
    }
}

/// Turns a response into the outcome of the call. An error's message is
/// passed on as it is. A response with neither result nor error is a
/// success without a value.
pub fn interpret(response: RpcResponse) -> (out: Result<JsonValue, ChannelError>)
    ensures
        outcome_view(out) == outcome_of(response@),
{
    match response.error {
        Some(e) => Err(ChannelError::Remote(e.message)),
        None => match response.result {
            Some(r) => Ok(r),
            None => Ok(JsonValue::Null),
        },
    }
}

/// A response that holds neither a result nor an error is a success whose
/// value is `null`.
pub proof fn law_empty_response_is_null(response: ResponseView)
    requires
        response.result is None,
        response.error is None,
    ensures
        outcome_of(response) == Ok::<JsonView, FailureView>(JsonView::Null),
{
}

/// The line that carries a request: the object of the protocol version, the
/// identifier in decimal, the method and the parameters, both as JSON text,
/// in this order and without spaces, then a line feed.
pub open spec fn framed_request(id: nat, method: Seq<char>, params: Seq<char>) -> Seq<char> {
    "{\"jsonrpc\":\"2.0\",\"id\":"@ + decimal(id) + ",\"method\":"@ + method + ",\"params\":"@
        + params + "}\n"@
}

/// Whether `text` is one line: it ends in a line feed and holds no other.
pub open spec fn is_one_line(text: Seq<char>) -> bool {
    &&& text.len() > 0
    &&& text.last() == '\n'
    &&& free_of_line_feeds(text.drop_last())
}

proof fn lemma_decimal_has_no_line_feed(n: nat)
    ensures
        free_of_line_feeds(decimal(n)),
    decreases n,
{
    if n >= 10 {
        lemma_decimal_has_no_line_feed(n / 10);
    }
}

/// A request is one line: where the JSON texts of the method and of the
/// parameters hold no line feed, the request ends in a line feed and holds
/// no other, so that requests written one after the other stay apart.
pub proof fn law_request_is_one_line(id: nat, method: Seq<char>, params: Seq<char>)
    requires
        free_of_line_feeds(method),
        free_of_line_feeds(params),
    ensures
        is_one_line(framed_request(id, method, params)),
{
    reveal_strlit("{\"jsonrpc\":\"2.0\",\"id\":");
    reveal_strlit(",\"method\":");
    reveal_strlit(",\"params\":");
    reveal_strlit("}\n");
    lemma_decimal_has_no_line_feed(id);
    let head = "{\"jsonrpc\":\"2.0\",\"id\":"@ + decimal(id) + ",\"method\":"@ + method
        + ",\"params\":"@ + params;
    let line = framed_request(id, method, params);
    assert(free_of_line_feeds("{\"jsonrpc\":\"2.0\",\"id\":"@));
    assert(free_of_line_feeds(",\"method\":"@));
    assert(free_of_line_feeds(",\"params\":"@));
    assert(free_of_line_feeds(head));
    assert(line == head + "}\n"@);
    assert(line.drop_last() =~= head.push('}'));
}

/// Frames a request from its identifier and the JSON texts of its method
/// and parameters.
pub fn frame_request(id: u64, method: &str, params: &str) -> (out: String)
    ensures
        out@ == framed_request(id as nat, method@, params@),
{
    let mut out = "{\"jsonrpc\":\"2.0\",\"id\":".to_owned();
    let number = decimal_string(id);
    out.append(number.as_str());
    out.append(",\"method\":");
    out.append(method);
    out.append(",\"params\":");
    out.append(params);
    out.append("}\n");
    out
}

/// The line that carries the request `id` for `method` with `params`: the
/// frame around the JSON texts of the method's name and of the parameters
/// as they are written.
pub open spec fn request_line(id: nat, method: Seq<char>, params: JsonView) -> Seq<char> {
    framed_request(id, json_text(JsonView::Str(method)), json_text(params.written()))
}

/// The line that carries the request `id` for `method` with `params`. It
/// is one line, whatever the method and the parameters hold.
pub fn encode_request(id: u64, method: &str, params: &JsonValue) -> (out: Result<
    String,
    ChannelError,
>)
    ensures
        out matches Ok(line) && line@ == request_line(id as nat, method@, params@) && is_one_line(
            line@,
        ),
{
    let name = JsonValue::Str(method.to_owned());
    let method_text = match write_value(&name) {
        Ok(text) => text,
        Err(e) => {
            return Err(ChannelError::Serialize(error_text(&e)));
        },
    };
    let params_text = match write_value(params) {
        Ok(text) => text,
        Err(e) => {
            return Err(ChannelError::Serialize(error_text(&e)));
        },
    };
    proof {
        law_request_is_one_line(id as nat, method_text@, params_text@);
    }
    Ok(frame_request(id, method_text.as_str(), params_text.as_str()))
}

/// What a call returns for a parsed response line: the outcome of the
/// response that the value stands for, or a parse failure that says why
/// it stands for none.
pub open spec fn outcome_of_value(value: JsonView) -> Result<JsonView, FailureView> {
    match response_of(value) {
        Ok(response) => outcome_of(response),
        Err(why) => Err(FailureView::Parse(why.text())),
    }
}

/// The outcome of a call from the parsed response line.
pub fn outcome_from(value: JsonValue) -> (out: Result<JsonValue, ChannelError>)
    ensures
        outcome_view(out) == outcome_of_value(value@),
{
    match read_response(value) {
        Ok(response) => interpret(response),
        Err(why) => Err(ChannelError::Parse(why.message())),
    }
}

/// The outcome of a call from the line that the worker answered with. A
/// line that is no JSON, or no response, is a parse failure; an error that
/// the worker reports is a failure with the worker's message.
pub fn decode_response(line: &str) -> (out: Result<JsonValue, ChannelError>)
    ensures
        match parsed_json(line@) {
            Some(value) => outcome_view(out) == outcome_of_value(value),
            None => out matches Err(e) && e is Parse,
        },
{
    match parse_value(line) {
        Ok(value) => outcome_from(value),
        Err(e) => Err(ChannelError::Parse(error_text(&e))),
    }
}

} // verus!
