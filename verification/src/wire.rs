//! Transcoding: requests and responses as JSON trees and as JSON text, and
//! the plain parts of the HTTP messages that carry them.

use crate::error::JsonRpcError;
use crate::json::{
    lemma_array_view, lemma_object_view, member, member_trees, parse_json, parsed_json, pick3,
    render_json, rendered_json, trees, Json, JsonNumber, JsonTree, NumberTree,
};
use crate::message::{
    ErrorObject, ErrorView, Id, IdView, JsonRpcRequest, JsonRpcResponse, Params, ParamsView,
    PayloadView, RequestView, ResponsePayload, ResponseView,
};
use crate::names::{has_prefix, starts_with};
use vstd::prelude::*;
use vstd::string::*;

verus! {

/// What is wrong with a JSON tree that should be a request or a response.
#[derive(Clone, Copy, Debug, PartialEq, Eq)]
pub enum WireFault {
    /// The message is not an object.
    NotAnObject,
    /// The request has no `method`.
    MissingMethod,
    /// The `method` is not a string.
    InvalidMethod,
    /// The `id` is not null, a non-negative integer or a string.
    InvalidId,
    /// The `params` are neither an array nor an object.
    InvalidParams,
    /// The response has neither `result` nor `error`.
    MissingPayload,
    /// The response has both `result` and `error`.
    AmbiguousPayload,
    /// The `error` is not an object with an integer `code` and a string
    /// `message`.
    InvalidError,
}

/// The text that describes a fault.
pub open spec fn fault_text(fault: WireFault) -> Seq<char> {
    match fault {
        WireFault::NotAnObject => "message is not an object"@,
        WireFault::MissingMethod => "missing field `method`"@,
        WireFault::InvalidMethod => "field `method` is not a string"@,
        WireFault::InvalidId => "field `id` is not null, an unsigned integer or a string"@,
        WireFault::InvalidParams => "field `params` is not an array or an object"@,
        WireFault::MissingPayload => "response has neither `result` nor `error`"@,
        WireFault::AmbiguousPayload => "response has both `result` and `error`"@,
        WireFault::InvalidError => "field `error` is not an error object"@,
    }
}

impl WireFault {
    /// The text that describes this fault.
    pub fn text(&self) -> (text: String)
        ensures
            text@ == fault_text(*self),
    {
        match self {
            WireFault::NotAnObject => String::from_str("message is not an object"),
            WireFault::MissingMethod => String::from_str("missing field `method`"),
            WireFault::InvalidMethod => String::from_str("field `method` is not a string"),
            WireFault::InvalidId => String::from_str(
                "field `id` is not null, an unsigned integer or a string",
            ),
            WireFault::InvalidParams => String::from_str(
                "field `params` is not an array or an object",
            ),
            WireFault::MissingPayload => String::from_str(
                "response has neither `result` nor `error`",
            ),
            WireFault::AmbiguousPayload => String::from_str(
                "response has both `result` and `error`",
            ),
            WireFault::InvalidError => String::from_str("field `error` is not an error object"),
        }
    }
}

/// An id as a JSON value.
pub open spec fn id_tree(id: IdView) -> JsonTree {
    match id {
        IdView::Null => JsonTree::Null,
        IdView::Number(n) => JsonTree::Number(NumberTree::PosInt(n)),
        IdView::Str(s) => JsonTree::Str(s),
    }
}

/// The id that the `id` member of a message stands for. A message without
/// the member has the null id; a member that is not null, a non-negative
/// integer or a string stands for no id.
pub open spec fn id_of(slot: Option<JsonTree>) -> Option<IdView> {
    match slot {
        None => Some(IdView::Null),
        Some(JsonTree::Null) => Some(IdView::Null),
        Some(JsonTree::Number(NumberTree::PosInt(n))) => Some(IdView::Number(n)),
        Some(JsonTree::Str(s)) => Some(IdView::Str(s)),
        Some(_) => None,
    }
}

/// The parameters that the `params` member of a request stands for.
pub open spec fn params_of(slot: Option<JsonTree>) -> Option<ParamsView> {
    match slot {
        None => Some(ParamsView::Absent),
        Some(JsonTree::Array(items)) => Some(ParamsView::Positional(items)),
        Some(JsonTree::Object(members)) => Some(ParamsView::Named(members)),
        Some(_) => None,
    }
}

/// A request as a JSON object: `id`, `method`, and `params` unless they are
/// absent.
pub open spec fn request_tree(request: RequestView) -> JsonTree {
    let head = Seq::<(Seq<char>, JsonTree)>::empty().push(("id"@, id_tree(request.id))).push(
        ("method"@, JsonTree::Str(request.method)),
    );
    match request.params {
        ParamsView::Absent => JsonTree::Object(head),
        ParamsView::Positional(items) => JsonTree::Object(
            head.push(("params"@, JsonTree::Array(items))),
        ),
        ParamsView::Named(members) => JsonTree::Object(
            head.push(("params"@, JsonTree::Object(members))),
        ),
    }
}

/// The request that a JSON tree stands for, or what is wrong with the tree.
/// Members other than `id`, `method` and `params` are passed over.
pub open spec fn request_of(tree: JsonTree) -> Result<RequestView, WireFault> {
    match tree {
        JsonTree::Object(members) => match member(members, "method"@) {
            None => Err(WireFault::MissingMethod),
            Some(JsonTree::Str(method)) => match id_of(member(members, "id"@)) {
                None => Err(WireFault::InvalidId),
                Some(id) => match params_of(member(members, "params"@)) {
                    None => Err(WireFault::InvalidParams),
                    Some(params) => Ok(RequestView { id, method, params }),
                },
            },
            Some(_) => Err(WireFault::InvalidMethod),
        },
        _ => Err(WireFault::NotAnObject),
    }
}

/// An error code as a JSON number.
pub open spec fn code_number(code: i32) -> NumberTree {
    if code >= 0 {
        NumberTree::PosInt(code as u64)
    } else {
        NumberTree::NegInt(code as i64)
    }
}

/// The error code that a JSON number stands for: the number itself where
/// it is an integer of 32 bits.
pub open spec fn code_of(number: NumberTree) -> Option<i32> {
    match number {
        NumberTree::PosInt(n) => if n <= i32::MAX {
            Some(n as i32)
        } else {
            None
        },
        NumberTree::NegInt(n) => if i32::MIN <= n <= i32::MAX {
            Some(n as i32)
        } else {
            None
        },
        NumberTree::Float(_) => None,
    }
}

/// An error as a JSON object: `code`, `message`, and `data` where there is
/// any.
pub open spec fn error_tree(error: ErrorView) -> JsonTree {
    let head = Seq::<(Seq<char>, JsonTree)>::empty().push(
        ("code"@, JsonTree::Number(code_number(error.code))),
    ).push(("message"@, JsonTree::Str(error.message)));
    match error.data {
        None => JsonTree::Object(head),
        Some(data) => JsonTree::Object(head.push(("data"@, data))),
    }
}

/// The error that a JSON tree stands for.
pub open spec fn error_of(tree: JsonTree) -> Option<ErrorView> {
    match tree {
        JsonTree::Object(members) => match (member(members, "code"@), member(members, "message"@)) {
            (Some(JsonTree::Number(number)), Some(JsonTree::Str(message))) => match code_of(
                number,
            ) {
                Some(code) => Some(ErrorView { code, message, data: member(members, "data"@) }),
                None => None,
            },
            _ => None,
        },
        _ => None,
    }
}

/// A response as a JSON object: `id`, and either `result` or `error`.
pub open spec fn response_tree(response: ResponseView) -> JsonTree {
    let head = Seq::<(Seq<char>, JsonTree)>::empty().push(("id"@, id_tree(response.id)));
    match response.payload {
        PayloadView::Success(result) => JsonTree::Object(head.push(("result"@, result))),
        PayloadView::Error(error) => JsonTree::Object(head.push(("error"@, error_tree(error)))),
    }
}

/// The response that a JSON tree stands for, or what is wrong with the
/// tree. A response has exactly one of `result` and `error`.
pub open spec fn response_of(tree: JsonTree) -> Result<ResponseView, WireFault> {
    match tree {
        JsonTree::Object(members) => match id_of(member(members, "id"@)) {
            None => Err(WireFault::InvalidId),
            Some(id) => match (member(members, "result"@), member(members, "error"@)) {
                (None, None) => Err(WireFault::MissingPayload),
                (Some(_), Some(_)) => Err(WireFault::AmbiguousPayload),
                (Some(result), None) => Ok(ResponseView { id, payload: PayloadView::Success(result) }),
                (None, Some(error)) => match error_of(error) {
                    None => Err(WireFault::InvalidError),
                    Some(error) => Ok(ResponseView { id, payload: PayloadView::Error(error) }),
                },
            },
        },
        _ => Err(WireFault::NotAnObject),
    }
}

/// The member names of requests, responses and errors differ from each
/// other where two of them stand in one object.
pub proof fn lemma_member_names()
    ensures
        "id"@ != "method"@,
        "id"@ != "params"@,
        "method"@ != "params"@,
        "id"@ != "result"@,
        "id"@ != "error"@,
        "result"@ != "error"@,
        "code"@ != "message"@,
        "code"@ != "data"@,
        "message"@ != "data"@,
{
    reveal_strlit("id");
    reveal_strlit("method");
    reveal_strlit("params");
    reveal_strlit("result");
    reveal_strlit("error");
    reveal_strlit("code");
    reveal_strlit("message");
    reveal_strlit("data");
    assert("id"@.len() == 2 && "method"@.len() == 6 && "params"@.len() == 6);
    assert("result"@.len() == 6 && "error"@.len() == 5);
    assert("code"@.len() == 4 && "message"@.len() == 7 && "data"@.len() == 4);
    assert("method"@[0] != "params"@[0]);
    assert("code"@[0] != "data"@[0]);
}

/// What an object holds under a key once a member is added at its end.
pub proof fn lemma_member_push(
    members: Seq<(Seq<char>, JsonTree)>,
    key: Seq<char>,
    value: JsonTree,
    wanted: Seq<char>,
)
    ensures
        member(members.push((key, value)), wanted) == if key == wanted {
            Some(value)
        } else {
            member(members, wanted)
        },
{
    assert(members.push((key, value)).drop_last() =~= members);
}

/// Decoding the tree of a request gives the request back: same id, same
/// method, same parameters.
pub proof fn lemma_request_round_trip(request: RequestView)
    ensures
        request_of(request_tree(request)) == Ok::<RequestView, WireFault>(request),
{
    lemma_member_names();
    let empty = Seq::<(Seq<char>, JsonTree)>::empty();
    let one = empty.push(("id"@, id_tree(request.id)));
    let head = one.push(("method"@, JsonTree::Str(request.method)));
    lemma_member_push(empty, "id"@, id_tree(request.id), "id"@);
    lemma_member_push(empty, "id"@, id_tree(request.id), "method"@);
    lemma_member_push(empty, "id"@, id_tree(request.id), "params"@);
    lemma_member_push(one, "method"@, JsonTree::Str(request.method), "id"@);
    lemma_member_push(one, "method"@, JsonTree::Str(request.method), "method"@);
    lemma_member_push(one, "method"@, JsonTree::Str(request.method), "params"@);
    match request.params {
        ParamsView::Absent => {},
        ParamsView::Positional(items) => {
            lemma_member_push(head, "params"@, JsonTree::Array(items), "id"@);
            lemma_member_push(head, "params"@, JsonTree::Array(items), "method"@);
            lemma_member_push(head, "params"@, JsonTree::Array(items), "params"@);
        },
        ParamsView::Named(members) => {
            lemma_member_push(head, "params"@, JsonTree::Object(members), "id"@);
            lemma_member_push(head, "params"@, JsonTree::Object(members), "method"@);
            lemma_member_push(head, "params"@, JsonTree::Object(members), "params"@);
        },
    }
}

/// Decoding the tree of an error gives the error back.
pub proof fn lemma_error_round_trip(error: ErrorView)
    ensures
        error_of(error_tree(error)) == Some(error),
{
    lemma_member_names();
    let empty = Seq::<(Seq<char>, JsonTree)>::empty();
    let code = JsonTree::Number(code_number(error.code));
    let one = empty.push(("code"@, code));
    let head = one.push(("message"@, JsonTree::Str(error.message)));
    lemma_member_push(empty, "code"@, code, "code"@);
    lemma_member_push(empty, "code"@, code, "message"@);
    lemma_member_push(empty, "code"@, code, "data"@);
    lemma_member_push(one, "message"@, JsonTree::Str(error.message), "code"@);
    lemma_member_push(one, "message"@, JsonTree::Str(error.message), "message"@);
    lemma_member_push(one, "message"@, JsonTree::Str(error.message), "data"@);
    match error.data {
        None => {},
        Some(data) => {
            lemma_member_push(head, "data"@, data, "code"@);
            lemma_member_push(head, "data"@, data, "message"@);
            lemma_member_push(head, "data"@, data, "data"@);
        },
    }
}

/// Decoding the tree of a response gives the response back: same id, same
/// result or error.
pub proof fn lemma_response_round_trip(response: ResponseView)
    ensures
        response_of(response_tree(response)) == Ok::<ResponseView, WireFault>(response),
{
    lemma_member_names();
    let empty = Seq::<(Seq<char>, JsonTree)>::empty();
    let head = empty.push(("id"@, id_tree(response.id)));
    lemma_member_push(empty, "id"@, id_tree(response.id), "id"@);
    lemma_member_push(empty, "id"@, id_tree(response.id), "result"@);
    lemma_member_push(empty, "id"@, id_tree(response.id), "error"@);
    match response.payload {
        PayloadView::Success(result) => {
            lemma_member_push(head, "result"@, result, "id"@);
            lemma_member_push(head, "result"@, result, "result"@);
            lemma_member_push(head, "result"@, result, "error"@);
        },
        PayloadView::Error(error) => {
            lemma_error_round_trip(error);
            lemma_member_push(head, "error"@, error_tree(error), "id"@);
            lemma_member_push(head, "error"@, error_tree(error), "result"@);
            lemma_member_push(head, "error"@, error_tree(error), "error"@);
        },
    }
}

/// A request that was decoded from a tree is the one that its own tree
/// decodes to: encoding and decoding again changes nothing.
pub proof fn lemma_decoded_request_is_stable(tree: JsonTree)
    ensures
        match request_of(tree) {
            Ok(request) => request_of(request_tree(request)) == Ok::<RequestView, WireFault>(
                request,
            ),
            Err(_) => true,
        },
{
    match request_of(tree) {
        Ok(request) => lemma_request_round_trip(request),
        Err(_) => {},
    }
}

/// A response that was decoded from a tree is the one that its own tree
/// decodes to: encoding and decoding again changes nothing.
pub proof fn lemma_decoded_response_is_stable(tree: JsonTree)
    ensures
        match response_of(tree) {
            Ok(response) => response_of(response_tree(response)) == Ok::<ResponseView, WireFault>(
                response,
            ),
            Err(_) => true,
        },
{
    match response_of(tree) {
        Ok(response) => lemma_response_round_trip(response),
        Err(_) => {},
    }
}

/// The id as a JSON value.
pub fn id_to_json(id: Id) -> (json: Json)
    ensures
        json@ == id_tree(id@),
{
    match id {
        Id::Null => Json::Null,
        Id::Number(n) => Json::Number(JsonNumber::PosInt(n)),
        Id::Str(s) => Json::Str(s),
    }
}

/// Reads the id from the `id` member of a message.
pub fn id_from_json(slot: Option<Json>) -> (id: Option<Id>)
    ensures
        match id {
            Some(id) => id_of(crate::json::optional_tree(slot)) == Some(id@),
            None => id_of(crate::json::optional_tree(slot)) is None,
        },
{
    match slot {
        None => Some(Id::Null),
        Some(Json::Null) => Some(Id::Null),
        Some(Json::Number(JsonNumber::PosInt(n))) => Some(Id::Number(n)),
        Some(Json::Str(s)) => Some(Id::Str(s)),
        Some(_) => None,
    }
}

/// An object made of members.
fn object(members: Vec<(String, Json)>) -> (json: Json)
    ensures
        json@ == JsonTree::Object(member_trees(members@)),
{
    let json = Json::Object(members);
    proof {
        lemma_object_view(json);
    }
    json
}

/// An array made of items.
fn array(items: Vec<Json>) -> (json: Json)
    ensures
        json@ == JsonTree::Array(trees(items@)),
{
    let json = Json::Array(items);
    proof {
        lemma_array_view(json);
    }
    json
}

/// Adds a member at the end of a list of members.
fn push_member(members: &mut Vec<(String, Json)>, key: &str, value: Json)
    ensures
        member_trees(final(members)@) == member_trees(old(members)@).push((key@, value@)),
{
    let ghost before = member_trees(members@);
    members.push((String::from_str(key), value));
    assert(member_trees(members@) =~= before.push((key@, value@)));
}

/// The request as a JSON object.
pub fn request_to_json(request: JsonRpcRequest) -> (json: Json)
    ensures
        json@ == request_tree(request@),
{
    let JsonRpcRequest { id, method, params } = request;
    let mut members: Vec<(String, Json)> = Vec::new();
    assert(member_trees(members@) =~= Seq::empty());
    push_member(&mut members, "id", id_to_json(id));
    push_member(&mut members, "method", Json::Str(method));
    match params {
        Params::Absent => {},
        Params::Positional(items) => {
            push_member(&mut members, "params", array(items));
        },
        Params::Named(named) => {
            push_member(&mut members, "params", object(named));
        },
    }
    object(members)
}

/// Reads a request from a JSON tree.
pub fn request_from_json(json: Json) -> (result: Result<JsonRpcRequest, WireFault>)
    ensures
        match result {
            Ok(request) => request_of(json@) == Ok::<RequestView, WireFault>(request@),
            Err(fault) => request_of(json@) == Err::<RequestView, WireFault>(fault),
        },
{
    proof {
        lemma_member_names();
    }
    match json {
        Json::Object(members) => {
            proof {
                lemma_object_view(json);
            }
            let (id_slot, method_slot, params_slot) = pick3(members, "id", "method", "params");
            let method = match method_slot {
                None => {
                    return Err(WireFault::MissingMethod);
                },
                Some(Json::Str(method)) => method,
                Some(_) => {
                    return Err(WireFault::InvalidMethod);
                },
            };
            let id = match id_from_json(id_slot) {
                None => {
                    return Err(WireFault::InvalidId);
                },
                Some(id) => id,
            };
            let params = match params_slot {
                None => Params::Absent,
                Some(Json::Array(items)) => {
                    proof {
                        lemma_array_view(Json::Array(items));
                    }
                    Params::Positional(items)
                },
                Some(Json::Object(named)) => {
                    proof {
                        lemma_object_view(Json::Object(named));
                    }
                    Params::Named(named)
                },
                Some(_) => {
                    return Err(WireFault::InvalidParams);
                },
            };
            Ok(JsonRpcRequest { id, method, params })
        },
        _ => Err(WireFault::NotAnObject),
    }
}

/// The error code as a JSON number.
fn code_to_number(code: i32) -> (number: JsonNumber)
    ensures
        number@ == code_number(code),
{
    if code >= 0 {
        JsonNumber::PosInt(code as u64)
    } else {
        JsonNumber::NegInt(code as i64)
    }
}

/// Reads an error code from a JSON number.
fn code_from_number(number: &JsonNumber) -> (code: Option<i32>)
    ensures
        code == code_of(number@),
{
    match number {
        JsonNumber::PosInt(n) => if *n <= 0x7fff_ffff {
            Some(*n as i32)
        } else {
            None
        },
        JsonNumber::NegInt(n) => if -0x8000_0000 <= *n && *n <= 0x7fff_ffff {
            Some(*n as i32)
        } else {
            None
        },
        JsonNumber::Float(_) => None,
    }
}

/// The error as a JSON object.
pub fn error_to_json(error: ErrorObject) -> (json: Json)
    ensures
        json@ == error_tree(error@),
{
    let ErrorObject { code, message, data } = error;
    let mut members: Vec<(String, Json)> = Vec::new();
    assert(member_trees(members@) =~= Seq::empty());
    push_member(&mut members, "code", Json::Number(code_to_number(code)));
    push_member(&mut members, "message", Json::Str(message));
    match data {
        None => {},
        Some(data) => {
            push_member(&mut members, "data", data);
        },
    }
    object(members)
}

/// Reads an error from a JSON tree.
pub fn error_from_json(json: Json) -> (result: Option<ErrorObject>)
    ensures
        match result {
            Some(error) => error_of(json@) == Some(error@),
            None => error_of(json@) is None,
        },
{
    proof {
        lemma_member_names();
    }
    match json {
        Json::Object(members) => {
            proof {
                lemma_object_view(json);
            }
            let (code_slot, message_slot, data) = pick3(members, "code", "message", "data");
            match (code_slot, message_slot) {
                (Some(Json::Number(number)), Some(Json::Str(message))) => {
                    match code_from_number(&number) {
                        Some(code) => Some(ErrorObject { code, message, data }),
                        None => None,
                    }
                },
                _ => None,
            }
        },
        _ => None,
    }
}

/// The response as a JSON object.
pub fn response_to_json(response: JsonRpcResponse) -> (json: Json)
    ensures
        json@ == response_tree(response@),
{
    let JsonRpcResponse { id, payload } = response;
    let mut members: Vec<(String, Json)> = Vec::new();
    assert(member_trees(members@) =~= Seq::empty());
    push_member(&mut members, "id", id_to_json(id));
    match payload {
        ResponsePayload::Success(result) => {
            push_member(&mut members, "result", result);
        },
        ResponsePayload::Error(error) => {
            push_member(&mut members, "error", error_to_json(error));
        },
    }
    object(members)
}

/// Reads a response from a JSON tree.
pub fn response_from_json(json: Json) -> (result: Result<JsonRpcResponse, WireFault>)
    ensures
        match result {
            Ok(response) => response_of(json@) == Ok::<ResponseView, WireFault>(response@),
            Err(fault) => response_of(json@) == Err::<ResponseView, WireFault>(fault),
        },
{
    proof {
        lemma_member_names();
    }
    match json {
        Json::Object(members) => {
            proof {
                lemma_object_view(json);
            }
            let (id_slot, result_slot, error_slot) = pick3(members, "id", "result", "error");
            let id = match id_from_json(id_slot) {
                None => {
                    return Err(WireFault::InvalidId);
                },
                Some(id) => id,
            };
            match (result_slot, error_slot) {
                (None, None) => Err(WireFault::MissingPayload),
                (Some(_), Some(_)) => Err(WireFault::AmbiguousPayload),
                (Some(result), None) => Ok(
                    JsonRpcResponse { id, payload: ResponsePayload::Success(result) },
                ),
                (None, Some(error)) => match error_from_json(error) {
                    None => Err(WireFault::InvalidError),
                    Some(error) => Ok(JsonRpcResponse { id, payload: ResponsePayload::Error(error) }),
                },
            }
        },
        _ => Err(WireFault::NotAnObject),
    }
}

/// Whether an error is the report of a fault in what was read: the request
/// on the server's side, the response on the client's.
pub open spec fn reports(error: JsonRpcError, fault: WireFault, inbound_request: bool) -> bool {
    if inbound_request {
        error matches JsonRpcError::RequestDeserialization(text) && text@ == fault_text(fault)
    } else {
        error matches JsonRpcError::RequestProcessing(text) && text@ == fault_text(fault)
    }
}

/// Reads a request from JSON text. Text that is not JSON gives the
/// parser's error; JSON that is no request gives the report of what is
/// wrong with it.
pub fn decode_request(bytes: &[u8]) -> (result: Result<JsonRpcRequest, JsonRpcError>)
    ensures
        match parsed_json(bytes@) {
            None => result matches Err(JsonRpcError::SerdeJson(_)),
            Some(tree) => match request_of(tree) {
                Ok(request) => result matches Ok(decoded) && decoded@ == request,
                Err(fault) => result matches Err(error) && reports(error, fault, true),
            },
        },
{
    match parse_json(bytes) {
        Err(error) => Err(JsonRpcError::SerdeJson(error)),
        Ok(json) => match request_from_json(json) {
            Ok(request) => Ok(request),
            Err(fault) => Err(JsonRpcError::RequestDeserialization(fault.text())),
        },
    }
}

/// Reads a response from JSON text.
pub fn decode_response(bytes: &[u8]) -> (result: Result<JsonRpcResponse, JsonRpcError>)
    ensures
        match parsed_json(bytes@) {
            None => result matches Err(JsonRpcError::SerdeJson(_)),
            Some(tree) => match response_of(tree) {
                Ok(response) => result matches Ok(decoded) && decoded@ == response,
                Err(fault) => result matches Err(error) && reports(error, fault, false),
            },
        },
{
    match parse_json(bytes) {
        Err(error) => Err(JsonRpcError::SerdeJson(error)),
        Ok(json) => match response_from_json(json) {
            Ok(response) => Ok(response),
            Err(fault) => Err(JsonRpcError::RequestProcessing(fault.text())),
        },
    }
}

/// Writes a tree as JSON text.
fn write_json(json: Json) -> (result: Result<Vec<u8>, JsonRpcError>)
    ensures
        match rendered_json(json@) {
            Some(text) => result matches Ok(bytes) && bytes@ == text,
            None => result matches Err(JsonRpcError::SerdeJson(_)),
        },
{
    match render_json(json) {
        Ok(bytes) => Ok(bytes),
        Err(error) => Err(JsonRpcError::SerdeJson(error)),
    }
}

/// Writes a request as JSON text: the text of its tree.
pub fn encode_request(request: JsonRpcRequest) -> (result: Result<Vec<u8>, JsonRpcError>)
    ensures
        match rendered_json(request_tree(request@)) {
            Some(text) => result matches Ok(bytes) && bytes@ == text,
            None => result matches Err(JsonRpcError::SerdeJson(_)),
        },
{
    let json = request_to_json(request);
    write_json(json)
}

/// Writes a response as JSON text: the text of its tree.
pub fn encode_response(response: JsonRpcResponse) -> (result: Result<Vec<u8>, JsonRpcError>)
    ensures
        match rendered_json(response_tree(response@)) {
            Some(text) => result matches Ok(bytes) && bytes@ == text,
            None => result matches Err(JsonRpcError::SerdeJson(_)),
        },
{
    let json = response_to_json(response);
    write_json(json)
}

/// The parts of an HTTP response that carries a JSON-RPC response.
#[derive(Debug, PartialEq, Eq)]
pub struct HttpReply {
    pub status: u16,
    pub content_type: String,
    pub body: Vec<u8>,
}

/// The parts of an HTTP request that carries a JSON-RPC request.
#[derive(Debug, PartialEq, Eq)]
pub struct HttpCall {
    pub method: String,
    pub content_type: String,
    pub body: Vec<u8>,
}

/// The HTTP response for a JSON-RPC response: status 200 and content type
/// `application/json`, whether the response holds a result or an error.
pub fn encode_http_response(response: JsonRpcResponse) -> (result: Result<HttpReply, JsonRpcError>)
    ensures
        match rendered_json(response_tree(response@)) {
            Some(text) => result matches Ok(reply) && reply.status == 200 && reply.content_type@
                == "application/json"@ && reply.body@ == text,
            None => result matches Err(JsonRpcError::SerdeJson(_)),
        },
{
    match encode_response(response) {
        Ok(body) => Ok(
            HttpReply { status: 200, content_type: String::from_str("application/json"), body },
        ),
        Err(error) => Err(error),
    }
}

/// The HTTP request for a JSON-RPC request: a `POST` with content type
/// `application/json`.
pub fn encode_http_request(request: JsonRpcRequest) -> (result: Result<HttpCall, JsonRpcError>)
    ensures
        match rendered_json(request_tree(request@)) {
            Some(text) => result matches Ok(call) && call.method@ == "POST"@ && call.content_type@
                == "application/json"@ && call.body@ == text,
            None => result matches Err(JsonRpcError::SerdeJson(_)),
        },
{
    match encode_request(request) {
        Ok(body) => Ok(
            HttpCall {
                method: String::from_str("POST"),
                content_type: String::from_str("application/json"),
                body,
            },
        ),
        Err(error) => Err(error),
    }
}

/// The content type for which a message is refused: one that is not
/// `application/json`, with or without parameters behind it. A message
/// without a content type is taken as JSON.
pub open spec fn refused_content_type(content_type: Option<&str>) -> Option<Seq<char>> {
    match content_type {
        Some(value) if !has_prefix(value@, "application/json"@) => Some(value@),
        _ => None,
    }
}

/// Reads a request from the parts of an HTTP request. A content type other
/// than JSON is refused before the body is looked at.
pub fn decode_http_request(content_type: Option<&str>, body: &[u8]) -> (result: Result<
    JsonRpcRequest,
    JsonRpcError,
>)
    ensures
        match refused_content_type(content_type) {
            Some(value) => (result matches Err(JsonRpcError::RequestDeserialization(text)) && text@
                == "unsupported content type: "@ + value),
            None => match parsed_json(body@) {
                None => result matches Err(JsonRpcError::SerdeJson(_)),
                Some(tree) => match request_of(tree) {
                    Ok(request) => result matches Ok(decoded) && decoded@ == request,
                    Err(fault) => result matches Err(error) && reports(error, fault, true),
                },
            },
        },
{
    match content_type {
        Some(value) => {
            if !starts_with(value, "application/json") {
                let mut text = String::from_str("unsupported content type: ");
                text.append(value);
                return Err(JsonRpcError::RequestDeserialization(text));
            }
        },
        None => {},
    }
    decode_request(body)
}

} // verus!
