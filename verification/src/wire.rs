//! The two envelopes of the wire protocol and their JSON text.
//!
//! One frame carries one JSON object. Outbound:
//! `{id, method, sessionId?, params}`. Inbound: `{id, result?, error?}`.

use crate::error::ProtocolError;
use crate::error::ProtocolErrorView;
use serde_json::Error as JsonError;
use vstd::prelude::*;

verus! {

/// `serde_json::Value`, carried through unread: the parameters of a command
/// and the result of a response.
#[verifier::external_type_specification]
#[verifier::external_body]
pub struct ExJsonValue(serde_json::Value);

/// The view of an optional string.
pub open spec fn text_view(text: Option<String>) -> Option<Seq<char>> {
    match text {
        Some(s) => Some(s@),
        None => None,
    }
}

/// A command on its way to the browser. `session_id` is absent for a command
/// to the browser itself and names the attached target otherwise.
#[derive(Debug, PartialEq)]
pub struct CommandEnvelope {
    pub id: usize,
    pub session_id: Option<String>,
    pub method: String,
    pub params: serde_json::Value,
}

/// A [`CommandEnvelope`] as a mathematical value.
pub struct CommandView {
    pub id: usize,
    pub session_id: Option<Seq<char>>,
    pub method: Seq<char>,
    pub params: serde_json::Value,
}

impl View for CommandEnvelope {
    type V = CommandView;

    open spec fn view(&self) -> CommandView {
        CommandView {
            id: self.id,
            session_id: text_view(self.session_id),
            method: self.method@,
            params: self.params,
        }
    }
}

/// A response from the browser: the id of the call it answers, and a result
/// or an error.
#[derive(Debug, PartialEq)]
pub struct ResponseEnvelope {
    pub id: usize,
    pub result: Option<serde_json::Value>,
    pub error: Option<ProtocolError>,
}

/// A [`ResponseEnvelope`] as a mathematical value.
pub struct ResponseView {
    pub id: usize,
    pub result: Option<serde_json::Value>,
    pub error: Option<ProtocolErrorView>,
}

impl View for ResponseEnvelope {
    type V = ResponseView;

    open spec fn view(&self) -> ResponseView {
        ResponseView {
            id: self.id,
            result: self.result,
            error: match self.error {
                Some(e) => Some(e@),
                None => None,
            },
        }
    }
}

/// The JSON text of a command, as `serde_json::to_string` writes a
/// `chromiumoxide_types::MethodCall` with these fields, or the error that it
/// reports.
pub uninterp spec fn encoded_command(command: CommandView) -> Result<Seq<char>, JsonError>;

/// The response that a text holds, as `serde_json::from_str` reads a
/// `chromiumoxide_types::Response` out of it, or the error that it reports.
pub uninterp spec fn decoded_response(text: Seq<char>) -> Result<ResponseView, JsonError>;

/// Calls `serde_json::to_string` on the `chromiumoxide_types::MethodCall` made
/// of the envelope's fields. Trusted: the text, or the failure, is the one
/// that `encoded_command` names for this envelope.
#[verifier::external_body]
fn encode_command(command: CommandEnvelope) -> (encoded: Result<String, JsonError>)
    ensures
        match encoded {
            Ok(text) => encoded_command(command@) == Ok::<Seq<char>, JsonError>(text@),
            Err(e) => encoded_command(command@) == Err::<Seq<char>, JsonError>(e),
        },
{
    serde_json::to_string(
        &chromiumoxide_types::MethodCall {
            id: chromiumoxide_types::CallId::new(command.id),
            method: command.method.into(),
            session_id: command.session_id,
            params: command.params,
        },
    )
}

/// Calls `serde_json::from_str` for a `chromiumoxide_types::Response` and
/// moves its fields into a [`ResponseEnvelope`]. The id has no getter, so it is
/// moved out through `serde_json::to_value` and `serde_json::from_value`, which
/// write and read a machine word as a number. Trusted: the envelope, or the
/// failure, is the one that `decoded_response` names for this text.
#[verifier::external_body]
pub(crate) fn decode_response(text: &str) -> (decoded: Result<ResponseEnvelope, JsonError>)
    ensures
        match decoded {
            Ok(response) => decoded_response(text@) == Ok::<ResponseView, JsonError>(response@),
            Err(e) => decoded_response(text@) == Err::<ResponseView, JsonError>(e),
        },
{
    let response = serde_json::from_str::<chromiumoxide_types::Response>(text)?;
    Ok(
        ResponseEnvelope {
            id: serde_json::from_value(serde_json::to_value(response.id)?)?,
            result: response.result,
            error: response.error.map(|e| ProtocolError { code: e.code, message: e.message }),
        },
    )
}

/// The JSON text of a call: the failure of serialising the parameters where
/// there was one, and the text of the command with these fields otherwise.
pub open spec fn encoded_call(
    id: usize,
    session_id: Option<Seq<char>>,
    method: Seq<char>,
    params: Result<serde_json::Value, JsonError>,
) -> Result<Seq<char>, JsonError> {
    match params {
        Err(e) => Err(e),
        Ok(value) => encoded_command(CommandView { id, session_id, method, params: value }),
    }
}

/// The view of the outcome of encoding.
pub open spec fn encoding_view(encoded: Result<String, JsonError>) -> Result<Seq<char>, JsonError> {
    match encoded {
        Ok(text) => Ok(text@),
        Err(e) => Err(e),
    }
}

/// Frames a call as JSON text. `params` is what serialising the command's
/// parameters gave; its failure is handed on. Touches no shared state, so it
/// can run outside any lock.
pub fn encode_call(
    id: usize,
    session_id: Option<String>,
    method: String,
    params: Result<serde_json::Value, JsonError>,
) -> (encoded: Result<String, JsonError>)
    ensures
        encoding_view(encoded) == encoded_call(id, text_view(session_id), method@, params),
{
    match params {
        Err(e) => Err(e),
        Ok(value) => encode_command(CommandEnvelope { id, session_id, method, params: value }),
    }
}

} // verus!
