//! Addressing: which target a command is meant for.

use crate::call_id::successor;
use crate::connection::Connection;
use crate::connection::OutboundFrame;
use crate::error::Error;
use crate::wire::encode_call;
use crate::wire::encoded_call;
use crate::wire::encoding_view;
use crate::wire::text_view;
use serde_json::Error as JsonError;
use serde_json::Value;
use vstd::pervasive::cloned;
use vstd::prelude::*;

verus! {

/// A handle on a connection together with the session that commands are sent
/// in: none for the browser itself, the session of an attached target
/// otherwise.
///
/// `C` is the caller's handle on the shared connection. Duplicating a session
/// duplicates that handle, so many sessions can share one connection.
#[derive(Debug, Clone)]
pub struct CdpSession<C> {
    connection: C,
    session_id: Option<String>,
}

impl<C> CdpSession<C> {
    /// The caller's handle on the connection.
    pub closed spec fn handle(&self) -> C {
        self.connection
    }

    /// The id of the session that commands are sent in, if any.
    pub closed spec fn target(&self) -> Option<Seq<char>> {
        text_view(self.session_id)
    }

    /// The session of the browser itself on `connection`: commands sent in it
    /// carry no session id.
    pub fn new(connection: C) -> (session: Self)
        ensures
            session.handle() == connection,
            session.target() is None,
    {
        CdpSession { connection, session_id: None }
    }

    /// A session on the same connection that sends its commands in
    /// `session_id`.
    pub fn with_session_id(&self, session_id: Option<String>) -> (scoped: Self) where C: Clone
        ensures
            cloned(self.handle(), scoped.handle()),
            scoped.target() == text_view(session_id),
    {
        CdpSession { connection: self.connection.clone(), session_id }
    }

    /// The caller's handle on the connection.
    pub fn connection(&self) -> (connection: &C)
        ensures
            *connection == self.handle(),
    {
        &self.connection
    }

    /// The id of the session that commands are sent in, if any.
    pub fn session_id(&self) -> (id: Option<&String>)
        ensures
            match id {
                Some(s) => self.target() == Some(s@),
                None => self.target() is None,
            },
    {
        self.session_id.as_ref()
    }

    /// Frames a call in this session as JSON text: with this session's id,
    /// unchanged, and with no id for the browser's own session. Touches no
    /// shared state.
    pub fn encode_call(&self, id: usize, method: String, params: Result<Value, JsonError>) -> (encoded:
        Result<String, JsonError>)
        ensures
            encoding_view(encoded) == encoded_call(id, self.target(), method@, params),
    {
        encode_call(id, self.own_session_id(), method, params)
    }

    /// A copy of the session id.
    fn own_session_id(&self) -> (id: Option<String>)
        ensures
            text_view(id) == self.target(),
    {
        match &self.session_id {
            Some(id) => Some(id.clone()),
            None => None,
        }
    }

    /// Starts a call in this session on the state of its connection: the
    /// command is framed with this session's id, unchanged, and with no id
    /// for the browser's own session. Everything else is as in
    /// [`Connection::begin_call`].
    pub fn begin_call<S>(
        &self,
        state: &mut Connection<S>,
        method: String,
        params: Result<Value, JsonError>,
        slot: S,
    ) -> (started: Result<OutboundFrame, Error>)
        ensures
            final(state).next_id() == successor(old(state).next_id()),
            final(state).is_closed() == old(state).is_closed(),
            match encoded_call(old(state).next_id(), self.target(), method@, params) {
                Ok(text) => {
                    &&& started matches Ok(frame)
                    &&& frame.id == old(state).next_id()
                    &&& frame.text@ == text
                    &&& final(state).pending() == if old(state).is_closed() {
                        old(state).pending()
                    } else {
                        old(state).pending().insert(old(state).next_id(), slot)
                    }
                },
                Err(e) => {
                    &&& started == Err::<OutboundFrame, Error>(Error::Serialize(e))
                    &&& final(state).pending() == old(state).pending()
                },
            },
            old(state).pending_ids_issued() && old(state).next_id() < usize::MAX ==> final(state).pending_ids_issued(),
            old(state).quiet_when_closed() ==> final(state).quiet_when_closed(),
    {
        state.begin_call(self.own_session_id(), method, params, slot)
    }
}

} // verus!
