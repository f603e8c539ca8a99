//! Messages of the protocol and the errors a handler answers with.

use vstd::prelude::*;
use crate::json::JsonValue;
use crate::text::same_text;

verus! {

/// The identifier that pairs a request with its response. It is handed back
/// exactly as it was received.
#[derive(Debug, Clone, PartialEq, Eq)]
pub enum RequestId {
    Number(i32),
    Text(String),
}

/// What identifies a request: the number, or the text of the identifier.
pub enum IdKey {
    Number(i32),
    Text(Seq<char>),
}

impl RequestId {
    /// What identifies the request.
    pub open spec fn key(&self) -> IdKey {
        match self {
            RequestId::Number(n) => IdKey::Number(*n),
            RequestId::Text(s) => IdKey::Text(s@),
        }
    }

    /// Whether both identifiers name the same request.
    pub fn same(&self, other: &RequestId) -> (r: bool)
        ensures
            r == (self.key() == other.key()),
    {
        match (self, other) {
            (RequestId::Number(a), RequestId::Number(b)) => *a == *b,
            (RequestId::Text(a), RequestId::Text(b)) => same_text(a.as_str(), b.as_str()),
            _ => false,
        }
    }

    /// A copy of the identifier.
    pub fn copy(&self) -> (r: RequestId)
        ensures
            r == *self,
    {
        match self {
            RequestId::Number(n) => RequestId::Number(*n),
            RequestId::Text(s) => RequestId::Text(s.clone()),
        }
    }
}

/// The error part of a response.
#[derive(Debug, Clone, PartialEq, Eq)]
pub struct ResponseError {
    pub code: i32,
    pub message: String,
    pub data: Option<JsonValue>,
}

/// What a handler returns: its value, or the error to answer with.
pub type LspResult<T> = Result<T, ResponseError>;

/// A handler's value after serialisation: the structured value, or the text
/// of the failure to serialise it.
pub type Serialized = Result<JsonValue, String>;

/// A request: a method to run on parameters, to be answered under its
/// identifier.
#[derive(Debug, Clone, PartialEq, Eq)]
pub struct Request {
    pub id: RequestId,
    pub method: String,
    pub params: JsonValue,
}

/// A notification: a method to run on parameters, never answered.
#[derive(Debug, Clone, PartialEq, Eq)]
pub struct Notification {
    pub method: String,
    pub params: JsonValue,
}

/// The answer to a request: a result or an error.
#[derive(Debug, Clone, PartialEq, Eq)]
pub struct Response {
    pub id: RequestId,
    pub result: Option<JsonValue>,
    pub error: Option<ResponseError>,
}

/// What travels between the editor and the server.
#[derive(Debug, Clone, PartialEq, Eq)]
pub enum Message {
    Request(Request),
    Response(Response),
    Notification(Notification),
}

/// The code of a request that cannot be served in the current state.
pub open spec fn spec_invalid_request() -> i32 {
    -32600i32
}

/// The code of an unknown method, command or resource.
pub open spec fn spec_method_not_found() -> i32 {
    -32601i32
}

/// The code of parameters of the wrong shape.
pub open spec fn spec_invalid_params() -> i32 {
    -32602i32
}

/// The code of a failure inside a handler.
pub open spec fn spec_internal_error() -> i32 {
    -32603i32
}

/// `lsp_server::ErrorCode::InvalidRequest` as a number, which the crate
/// declares as -32600.
#[verifier::external_body]
fn invalid_request_code() -> (c: i32)
    ensures
        c == spec_invalid_request(),
{
    lsp_server::ErrorCode::InvalidRequest as i32
}

/// `lsp_server::ErrorCode::MethodNotFound` as a number, which the crate
/// declares as -32601.
#[verifier::external_body]
fn method_not_found_code() -> (c: i32)
    ensures
        c == spec_method_not_found(),
{
    lsp_server::ErrorCode::MethodNotFound as i32
}

/// `lsp_server::ErrorCode::InvalidParams` as a number, which the crate
/// declares as -32602.
#[verifier::external_body]
fn invalid_params_code() -> (c: i32)
    ensures
        c == spec_invalid_params(),
{
    lsp_server::ErrorCode::InvalidParams as i32
}

/// `lsp_server::ErrorCode::InternalError` as a number, which the crate
/// declares as -32603.
#[verifier::external_body]
fn internal_error_code() -> (c: i32)
    ensures
        c == spec_internal_error(),
{
    lsp_server::ErrorCode::InternalError as i32
}

impl ResponseError {
    /// Whether this is the error with the given code and message, and no
    /// further data.
    pub open spec fn is(&self, code: i32, message: Seq<char>) -> bool {
        &&& self.code == code
        &&& self.message@ == message
        &&& self.data is None
    }
}

/// The message of the error for an unknown method.
pub open spec fn method_not_found_text() -> Seq<char> {
    "Method not found"@
}

/// The message of the error for a request after shutdown.
pub open spec fn shutdown_text() -> Seq<char> {
    "Shutdown already requested."@
}

/// The error for parameters of the wrong shape.
pub fn invalid_params(msg: &str) -> (e: ResponseError)
    ensures
        e.is(spec_invalid_params(), msg@),
{
    ResponseError { code: invalid_params_code(), message: msg.to_owned(), data: None }
}

/// The error for a failure inside a handler.
pub fn internal_error(msg: &str) -> (e: ResponseError)
    ensures
        e.is(spec_internal_error(), msg@),
{
    ResponseError { code: internal_error_code(), message: msg.to_owned(), data: None }
}

/// The error for an unknown method, command or resource.
pub fn method_not_found() -> (e: ResponseError)
    ensures
        e.is(spec_method_not_found(), method_not_found_text()),
{
    ResponseError {
        code: method_not_found_code(),
        message: "Method not found".to_owned(),
        data: None,
    }
}

/// The error for a request that arrives after shutdown was requested.
pub fn shutdown_already_requested() -> (e: ResponseError)
    ensures
        e.is(spec_invalid_request(), shutdown_text()),
{
    ResponseError {
        code: invalid_request_code(),
        message: "Shutdown already requested.".to_owned(),
        data: None,
    }
}

impl Response {
    /// The response that carries a result.
    pub fn new_ok(id: RequestId, result: JsonValue) -> (r: Response)
        ensures
            r == (Response { id, result: Some(result), error: None }),
    {
        Response { id, result: Some(result), error: None }
    }

    /// The response that carries an error with the given code and message.
    pub fn new_err(id: RequestId, code: i32, message: String) -> (r: Response)
        ensures
            r == (Response {
                id,
                result: None,
                error: Some(ResponseError { code, message, data: None }),
            }),
    {
        Response { id, result: None, error: Some(ResponseError { code, message, data: None }) }
    }

    /// Whether this is the error response to `id` with the given code and
    /// message.
    pub open spec fn is_error(&self, id: RequestId, code: i32, message: Seq<char>) -> bool {
        &&& self.id == id
        &&& self.result is None
        &&& self.error is Some
        &&& self.error->0.is(code, message)
    }
}

/// The response to `id` for a handler's outcome: the serialised value; the
/// handler's error with its code and message; or an internal error with the
/// text of the failure where the value could not be serialised.
pub open spec fn spec_result_to_response(
    id: RequestId,
    result: LspResult<Serialized>,
    r: Response,
) -> bool {
    match result {
        Ok(Ok(value)) => r == (Response { id, result: Some(value), error: None }),
        Ok(Err(text)) => r.is_error(id, spec_internal_error(), text@),
        Err(e) => r.is_error(id, e.code, e.message@),
    }
}

/// Turns a handler's outcome into the response to `id`.
pub fn result_to_response(id: RequestId, result: LspResult<Serialized>) -> (r: Response)
    ensures
        spec_result_to_response(id, result, r),
{
    match result {
        Ok(resp) => match resp {
            Ok(resp) => Response::new_ok(id, resp),
            Err(e) => {
                let e = internal_error(e.as_str());
                Response::new_err(id, e.code, e.message)
            },
        },
        Err(e) => Response::new_err(id, e.code, e.message),
    }
}

} // verus!
