//! What can go wrong between launching a browser and reading a reply.

use serde_json::Error as JsonError;
use tokio_websockets::Error as SocketError;
use vstd::prelude::*;

verus! {

/// `std::io::Error`, carried through unread: why the browser process did not
/// start.
#[verifier::external_type_specification]
#[verifier::external_body]
pub struct ExIoError(std::io::Error);

/// `tokio::time::error::Elapsed`, carried through unread: the mark that a
/// deadline passed.
#[verifier::external_type_specification]
#[verifier::external_body]
pub struct ExElapsed(tokio::time::error::Elapsed);

/// `http::uri::InvalidUri`, carried through unread: why an endpoint is not a
/// URI.
#[verifier::external_type_specification]
#[verifier::external_body]
pub struct ExInvalidUri(http::uri::InvalidUri);

/// `tokio_websockets::Error`, carried through unread: why the socket could not
/// be opened or written.
#[verifier::external_type_specification]
#[verifier::external_body]
pub struct ExSocketError(SocketError);

/// `serde_json::Error`, carried through unread: why a value or a text is not
/// the JSON that was expected.
#[verifier::external_type_specification]
#[verifier::external_body]
pub struct ExJsonError(JsonError);

/// `tokio::sync::oneshot::error::RecvError`, carried through unread: the mark
/// that a completion slot was dropped unfulfilled.
#[verifier::external_type_specification]
#[verifier::external_body]
pub struct ExRecvError(tokio::sync::oneshot::error::RecvError);

/// The error payload of a response: the browser's reason for refusing a call.
#[derive(Debug, PartialEq, Eq)]
pub struct ProtocolError {
    pub code: i64,
    pub message: String,
}

/// A [`ProtocolError`] as a mathematical value.
pub struct ProtocolErrorView {
    pub code: i64,
    pub message: Seq<char>,
}

impl View for ProtocolError {
    type V = ProtocolErrorView;

    open spec fn view(&self) -> ProtocolErrorView {
        ProtocolErrorView { code: self.code, message: self.message@ }
    }
}

/// Every failure that the client reports.
#[derive(Debug)]
pub enum Error {
    /// The browser process could not be spawned.
    Spawn(std::io::Error),
    /// The spawned process has no diagnostic stream to read the endpoint from.
    NoStderr,
    /// No endpoint showed up in the diagnostic stream before the deadline.
    Timeout(tokio::time::error::Elapsed),
    /// The endpoint is not a URI.
    InvalidUri(http::uri::InvalidUri),
    /// The socket could not be opened, or a frame could not be written.
    Socket(SocketError),
    /// A command could not be turned into JSON, or a result out of it.
    Serialize(JsonError),
    /// The connection went away while a caller was waiting for its response.
    Recv(tokio::sync::oneshot::error::RecvError),
    /// The browser answered without a result; the payload is its reason, if
    /// it gave one.
    Response(Option<ProtocolError>),
}

} // verus!
