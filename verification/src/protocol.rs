//! JSON-RPC messages: requests, responses, errors, and their form on the
//! wire.

use vstd::prelude::*;
use crate::json::{json_view, Json, JsonValue};
use crate::text::{decimal, decimal_text};
use crate::wire::{json_text, rendered_view};

verus! {

/// The line is no JSON, or no message.
pub const PARSE_ERROR: i32 = -32700;

/// The message does not carry the protocol's version tag.
pub const INVALID_REQUEST: i32 = -32600;

/// The method, or the tool, is not known.
pub const METHOD_NOT_FOUND: i32 = -32601;

/// The method was called before the handshake.
pub const NOT_INITIALIZED: i32 = -32002;

/// The request was understood and could not be served.
pub const REQUEST_FAILED: i32 = -32000;

/// A message as it came in. Without an identifier it is a notification.
#[derive(Debug, PartialEq)]
pub struct Request {
    pub jsonrpc: String,
    pub id: Option<Json>,
    pub method: String,
    pub params: Option<Json>,
}

/// What a [`Request`] holds, as mathematical values.
pub struct RequestView {
    pub jsonrpc: Seq<char>,
    pub id: Option<JsonValue>,
    pub method: Seq<char>,
    pub params: Option<JsonValue>,
}

impl View for Request {
    type V = RequestView;

    open spec fn view(&self) -> RequestView {
        RequestView {
            jsonrpc: self.jsonrpc@,
            id: json_view(self.id),
            method: self.method@,
            params: json_view(self.params),
        }
    }
}

/// The error of a response.
#[derive(Debug, PartialEq)]
pub struct ErrorObject {
    pub code: i32,
    pub message: String,
    pub data: Option<Json>,
}

/// What a [`Error`] holds, as mathematical values.
pub struct ErrorView {
    pub code: int,
    pub message: Seq<char>,
    pub data: Option<JsonValue>,
}

impl View for ErrorObject {
    type V = ErrorView;

    open spec fn view(&self) -> ErrorView {
        ErrorView { code: self.code as int, message: self.message@, data: json_view(self.data) }
    }
}

/// The answer to a request: the request's identifier, and either a result or
/// an error.
#[derive(Debug, PartialEq)]
pub struct Response {
    pub id: Json,
    pub outcome: Result<Json, ErrorObject>,
}

/// What a [`Response`] holds, as mathematical values.
pub struct ResponseView {
    pub id: JsonValue,
    pub outcome: Result<JsonValue, ErrorView>,
}

impl View for Response {
    type V = ResponseView;

    open spec fn view(&self) -> ResponseView {
        ResponseView {
            id: self.id@,
            outcome: match self.outcome {
                Ok(result) => Ok(result@),
                Err(error) => Err(error@),
            },
        }
    }
}

/// The response that carries a result.
pub open spec fn success(id: JsonValue, result: JsonValue) -> ResponseView {
    ResponseView { id, outcome: Ok(result) }
}

/// The response that carries an error.
pub open spec fn failure(id: JsonValue, code: int, message: Seq<char>, data: Option<JsonValue>) -> ResponseView {
    ResponseView { id, outcome: Err(ErrorView { code, message, data }) }
}

/// The response to a request that could not be served: the cause stands in
/// the message and, alone, in the data.
pub open spec fn request_failed(id: JsonValue, cause: Seq<char>) -> ResponseView {
    failure(id, REQUEST_FAILED as int, "Request failed: "@ + cause, Some(JsonValue::Text(cause)))
}

/// The response to a method that came before the handshake.
pub open spec fn not_initialized(id: JsonValue) -> ResponseView {
    failure(id, NOT_INITIALIZED as int, "Not initialized"@, None)
}

/// The message that a document spells, or what keeps it from being one. A
/// message is an object with a string under `jsonrpc` and one under
/// `method`; what stands under `id`, even `null`, is its identifier, and what
/// stands under `params`, unless it is `null`, its parameters.
pub open spec fn request_of(document: JsonValue) -> Result<RequestView, Seq<char>> {
    match document {
        JsonValue::Object(map) => {
            if !map.contains_key("jsonrpc"@) {
                Err("missing field `jsonrpc`"@)
            } else if !(map["jsonrpc"@] is Text) {
                Err("invalid type for field `jsonrpc`: expected a string"@)
            } else if !map.contains_key("method"@) {
                Err("missing field `method`"@)
            } else if !(map["method"@] is Text) {
                Err("invalid type for field `method`: expected a string"@)
            } else {
                Ok(
                    RequestView {
                        jsonrpc: map["jsonrpc"@]->Text_0,
                        id: if map.contains_key("id"@) {
                            Some(map["id"@])
                        } else {
                            None
                        },
                        method: map["method"@]->Text_0,
                        params: if map.contains_key("params"@) && !(map["params"@] is Null) {
                            Some(map["params"@])
                        } else {
                            None
                        },
                    },
                )
            }
        },
        _ => Err("invalid type: expected a message object"@),
    }
}

/// The view of a decoded message, or of the reason why there is none.
pub open spec fn decoded_view(decoded: Result<Request, String>) -> Result<RequestView, Seq<char>> {
    match decoded {
        Ok(request) => Ok(request@),
        Err(reason) => Err(reason@),
    }
}

/// Reads a message out of a document.
pub fn decode_request(document: &Json) -> (decoded: Result<Request, String>)
    ensures
        decoded_view(decoded) == request_of(document@),
{
    if !document.is_object() {
        return Err("invalid type: expected a message object".to_owned());
    }
    let jsonrpc = match document.member("jsonrpc") {
        None => {
            return Err("missing field `jsonrpc`".to_owned());
        },
        Some(found) => match found.as_text() {
            None => {
                return Err("invalid type for field `jsonrpc`: expected a string".to_owned());
            },
            Some(text) => text.to_owned(),
        },
    };
    let method = match document.member("method") {
        None => {
            return Err("missing field `method`".to_owned());
        },
        Some(found) => match found.as_text() {
            None => {
                return Err("invalid type for field `method`: expected a string".to_owned());
            },
            Some(text) => text.to_owned(),
        },
    };
    let id = match document.member("id") {
        Some(found) => Some(found.clone()),
        None => None,
    };
    let params = match document.member("params") {
        Some(Json::Null) => None,
        Some(found) => Some(found.clone()),
        None => None,
    };
    Ok(Request { jsonrpc, id, method, params })
}

/// The text of an error object: its code, its message and, where it has
/// some, its data, in this order. Where a part cannot be written, the reason
/// stands in the text's place.
pub open spec fn error_text(error: ErrorView) -> Result<Seq<char>, Seq<char>> {
    match json_text(JsonValue::Text(error.message)) {
        Err(reason) => Err(reason),
        Ok(message) => match error.data {
            None => Ok("{\"code\":"@ + decimal(error.code) + ",\"message\":"@ + message + "}"@),
            Some(data) => match json_text(data) {
                Err(reason) => Err(reason),
                Ok(data) => Ok(
                    "{\"code\":"@ + decimal(error.code) + ",\"message\":"@ + message
                        + ",\"data\":"@ + data + "}"@,
                ),
            },
        },
    }
}

/// The line that carries a response: the version tag, the identifier, then
/// the result or the error. Where a part cannot be written, the reason stands
/// in the line's place.
pub open spec fn response_text(response: ResponseView) -> Result<Seq<char>, Seq<char>> {
    match json_text(response.id) {
        Err(reason) => Err(reason),
        Ok(id) => match response.outcome {
            Ok(result) => match json_text(result) {
                Err(reason) => Err(reason),
                Ok(result) => Ok(
                    "{\"jsonrpc\":\"2.0\",\"id\":"@ + id + ",\"result\":"@ + result + "}"@,
                ),
            },
            Err(error) => match error_text(error) {
                Err(reason) => Err(reason),
                Ok(error) => Ok(
                    "{\"jsonrpc\":\"2.0\",\"id\":"@ + id + ",\"error\":"@ + error + "}"@,
                ),
            },
        },
    }
}

impl ErrorObject {
    /// Writes the error object as JSON text.
    pub fn render(&self) -> (rendered: Result<String, String>)
        ensures
            rendered_view(rendered) == error_text(self@),
    {
        let message = Json::text(self.message.as_str()).render()?;
        let mut text = "{\"code\":".to_owned();
        text.append(decimal_text(self.code).as_str());
        text.append(",\"message\":");
        text.append(message.as_str());
        match &self.data {
            None => {},
            Some(data) => {
                let data = data.render()?;
                text.append(",\"data\":");
                text.append(data.as_str());
            },
        }
        text.append("}");
        Ok(text)
    }
}

impl Response {
    /// The response that carries a result.
    pub fn success(id: Json, result: Json) -> (response: Response)
        ensures
            response@ == success(id@, result@),
    {
        Response { id, outcome: Ok(result) }
    }

    /// The response that carries an error.
    pub fn failure(id: Json, code: i32, message: String, data: Option<Json>) -> (response: Response)
        ensures
            response@ == failure(id@, code as int, message@, json_view(data)),
    {
        Response { id, outcome: Err(ErrorObject { code, message, data }) }
    }

    /// The response to a request that could not be served.
    pub fn request_failed(id: Json, cause: &str) -> (response: Response)
        ensures
            response@ == request_failed(id@, cause@),
    {
        let mut message = "Request failed: ".to_owned();
        message.append(cause);
        Response::failure(id, REQUEST_FAILED, message, Some(Json::text(cause)))
    }

    /// The response to a method that came before the handshake.
    pub fn not_initialized(id: Json) -> (response: Response)
        ensures
            response@ == not_initialized(id@),
    {
        Response::failure(id, NOT_INITIALIZED, "Not initialized".to_owned(), None)
    }

    /// Writes the response as one line of JSON, without the line's end.
    pub fn to_line(&self) -> (line: Result<String, String>)
        ensures
            rendered_view(line) == response_text(self@),
    {
        let id = self.id.render()?;
        let mut text = "{\"jsonrpc\":\"2.0\",\"id\":".to_owned();
        text.append(id.as_str());
        match &self.outcome {
            Ok(result) => {
                let result = result.render()?;
                text.append(",\"result\":");
                text.append(result.as_str());
            },
            Err(error) => {
                let error = error.render()?;
                text.append(",\"error\":");
                text.append(error.as_str());
            },
        }
        text.append("}");
        Ok(text)
    }
}

} // verus!
