//! The canonical request and response that every transport is decoded to and
//! every handler answers with.

use crate::json::{member_trees, trees, Json, JsonTree};
use vstd::prelude::*;
use vstd::string::*;

verus! {

/// The JSON text was not valid JSON.
pub const PARSE_ERROR_CODE: i32 = -32700;

/// The message is not a valid request.
pub const INVALID_REQUEST_CODE: i32 = -32600;

/// No route is registered under the requested method name.
pub const METHOD_NOT_FOUND_CODE: i32 = -32601;

/// The parameters do not fit the method.
pub const INVALID_PARAMS_CODE: i32 = -32602;

/// The server failed while it handled the call.
pub const INTERNAL_ERROR_CODE: i32 = -32603;

/// The id that ties a response to its request. A request without an id, or
/// with a null id, is a notification.
#[derive(Debug, PartialEq, Eq)]
pub enum Id {
    Null,
    Number(u64),
    Str(String),
}

/// The mathematical value of an [`Id`].
pub enum IdView {
    Null,
    Number(u64),
    Str(Seq<char>),
}

impl View for Id {
    type V = IdView;

    open spec fn view(&self) -> IdView {
        match self {
            Id::Null => IdView::Null,
            Id::Number(n) => IdView::Number(*n),
            Id::Str(s) => IdView::Str(s@),
        }
    }
}

impl Clone for Id {
    fn clone(&self) -> (r: Self)
        ensures
            r@ == self@,
    {
        match self {
            Id::Null => Id::Null,
            Id::Number(n) => Id::Number(*n),
            Id::Str(s) => Id::Str(s.clone()),
        }
    }
}

/// The parameters of a call: none, an ordered list, or a list of named
/// values. Being one enum, a request never holds both a list and a map.
#[derive(Debug, PartialEq)]
pub enum Params {
    Absent,
    Positional(Vec<Json>),
    Named(Vec<(String, Json)>),
}

/// The mathematical value of [`Params`].
pub enum ParamsView {
    Absent,
    Positional(Seq<JsonTree>),
    Named(Seq<(Seq<char>, JsonTree)>),
}

impl View for Params {
    type V = ParamsView;

    open spec fn view(&self) -> ParamsView {
        match self {
            Params::Absent => ParamsView::Absent,
            Params::Positional(items) => ParamsView::Positional(trees(items@)),
            Params::Named(members) => ParamsView::Named(member_trees(members@)),
        }
    }
}

/// A call: the method's name, its parameters, and the id to answer under.
#[derive(Debug, PartialEq)]
pub struct JsonRpcRequest {
    pub id: Id,
    pub method: String,
    pub params: Params,
}

/// The mathematical value of a [`JsonRpcRequest`].
pub struct RequestView {
    pub id: IdView,
    pub method: Seq<char>,
    pub params: ParamsView,
}

impl View for JsonRpcRequest {
    type V = RequestView;

    open spec fn view(&self) -> RequestView {
        RequestView { id: self.id@, method: self.method@, params: self.params@ }
    }
}

/// The error that a failed call answers with.
#[derive(Debug, PartialEq)]
pub struct ErrorObject {
    pub code: i32,
    pub message: String,
    pub data: Option<Json>,
}

/// The mathematical value of an [`ErrorObject`].
pub struct ErrorView {
    pub code: i32,
    pub message: Seq<char>,
    pub data: Option<JsonTree>,
}

impl View for ErrorObject {
    type V = ErrorView;

    open spec fn view(&self) -> ErrorView {
        ErrorView {
            code: self.code,
            message: self.message@,
            data: match self.data {
                Some(json) => Some(json@),
                None => None,
            },
        }
    }
}

/// What a response carries: the result of the call or its error, never both.
#[derive(Debug, PartialEq)]
pub enum ResponsePayload {
    Success(Json),
    Error(ErrorObject),
}

/// The mathematical value of a [`ResponsePayload`].
pub enum PayloadView {
    Success(JsonTree),
    Error(ErrorView),
}

impl View for ResponsePayload {
    type V = PayloadView;

    open spec fn view(&self) -> PayloadView {
        match self {
            ResponsePayload::Success(json) => PayloadView::Success(json@),
            ResponsePayload::Error(error) => PayloadView::Error(error@),
        }
    }
}

/// The answer to a call, under the id of the request.
#[derive(Debug, PartialEq)]
pub struct JsonRpcResponse {
    pub id: Id,
    pub payload: ResponsePayload,
}

/// The mathematical value of a [`JsonRpcResponse`].
pub struct ResponseView {
    pub id: IdView,
    pub payload: PayloadView,
}

impl View for JsonRpcResponse {
    type V = ResponseView;

    open spec fn view(&self) -> ResponseView {
        ResponseView { id: self.id@, payload: self.payload@ }
    }
}

/// The message that belongs to an error code: the standard text for the
/// codes of the protocol, and `Server error` for every other code.
pub open spec fn standard_message_text(code: i32) -> Seq<char> {
    if code == -32700 {
        "Parse error"@
    } else if code == -32007 {
        "Request is too big"@
    } else if code == -32600 {
        "Invalid request"@
    } else if code == -32601 {
        "Method not found"@
    } else if code == -32602 {
        "Invalid params"@
    } else if code == -32603 {
        "Internal error"@
    } else {
        "Server error"@
    }
}

/// Calls `jsonrpsee_types::ErrorCode::message` on the `ErrorCode` that
/// `From<i32>` makes of `code`: the constant text of that code's variant.
#[verifier::external_body]
pub(crate) fn standard_message(code: i32) -> (message: String)
    ensures
        message@ == standard_message_text(code),
{
    jsonrpsee_types::ErrorCode::from(code).message().to_string()
}

/// The error with a code's standard message and a text that says what was
/// wrong.
pub open spec fn fault(code: i32, detail: Seq<char>) -> ErrorView {
    ErrorView {
        code,
        message: standard_message_text(code),
        data: Some(JsonTree::Str(detail)),
    }
}

/// The error that answers a call to a method that no route is registered
/// under.
pub open spec fn method_not_found() -> ErrorView {
    ErrorView {
        code: METHOD_NOT_FOUND_CODE,
        message: standard_message_text(METHOD_NOT_FOUND_CODE),
        data: None,
    }
}

/// The response that carries `error` under `id`.
pub open spec fn error_response(id: IdView, error: ErrorView) -> ResponseView {
    ResponseView { id, payload: PayloadView::Error(error) }
}

/// The response that carries `result` under `id`.
pub open spec fn success_response(id: IdView, result: JsonTree) -> ResponseView {
    ResponseView { id, payload: PayloadView::Success(result) }
}

impl ErrorObject {
    /// An error with the standard message of `code` and `detail` as its data.
    pub fn with_detail(code: i32, detail: String) -> (error: ErrorObject)
        ensures
            error@ == fault(code, detail@),
    {
        ErrorObject { code, message: standard_message(code), data: Some(Json::Str(detail)) }
    }

    /// The error for a method that is not registered.
    pub fn method_not_found() -> (error: ErrorObject)
        ensures
            error@ == method_not_found(),
    {
        ErrorObject {
            code: METHOD_NOT_FOUND_CODE,
            message: standard_message(METHOD_NOT_FOUND_CODE),
            data: None,
        }
    }
}

impl JsonRpcResponse {
    /// The response that carries `result` under `id`.
    pub fn success(id: Id, result: Json) -> (response: JsonRpcResponse)
        ensures
            response@ == success_response(id@, result@),
    {
        JsonRpcResponse { id, payload: ResponsePayload::Success(result) }
    }

    /// The response that carries `error` under `id`.
    pub fn error(id: Id, error: ErrorObject) -> (response: JsonRpcResponse)
        ensures
            response@ == error_response(id@, error@),
    {
        JsonRpcResponse { id, payload: ResponsePayload::Error(error) }
    }

    /// Whether the call succeeded.
    pub fn is_success(&self) -> (r: bool)
        ensures
            r == (self@.payload is Success),
    {
        match self.payload {
            ResponsePayload::Success(_) => true,
            ResponsePayload::Error(_) => false,
        }
    }
}

/// The decimal digit for a value below ten.
pub open spec fn digit_char(d: nat) -> char {
    if d == 0 {
        '0'
    } else if d == 1 {
        '1'
    } else if d == 2 {
        '2'
    } else if d == 3 {
        '3'
    } else if d == 4 {
        '4'
    } else if d == 5 {
        '5'
    } else if d == 6 {
        '6'
    } else if d == 7 {
        '7'
    } else if d == 8 {
        '8'
    } else {
        '9'
    }
}

/// The decimal numeral of `n`, without leading zeros.
pub open spec fn decimal_text(n: nat) -> Seq<char>
    decreases n,
{
    if n < 10 {
        seq![digit_char(n)]
    } else {
        decimal_text(n / 10).push(digit_char(n % 10))
    }
}

fn digit(d: usize) -> (c: char)
    requires
        d < 10,
    ensures
        c == digit_char(d as nat),
{
    if d == 0 {
        '0'
    } else if d == 1 {
        '1'
    } else if d == 2 {
        '2'
    } else if d == 3 {
        '3'
    } else if d == 4 {
        '4'
    } else if d == 5 {
        '5'
    } else if d == 6 {
        '6'
    } else if d == 7 {
        '7'
    } else if d == 8 {
        '8'
    } else {
        '9'
    }
}

/// Writes `n` as a decimal numeral.
pub fn decimal(n: usize) -> (text: String)
    ensures
        text@ == decimal_text(n as nat),
    decreases n,
{
    if n < 10 {
        let mut text = String::new();
        crate::names::push_char(&mut text, digit(n));
        assert(text@ =~= seq![digit_char(n as nat)]);
        text
    } else {
        let mut text = decimal(n / 10);
        crate::names::push_char(&mut text, digit(n % 10));
        text
    }
}

} // verus!
