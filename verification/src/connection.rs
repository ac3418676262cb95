//! The bookkeeping of one connection: which id the next call gets, who waits
//! for which response, and where an inbound frame goes.
//!
//! Nothing here touches a socket. The caller writes the frames that
//! [`Connection::begin_call`] hands out, reads frames from the socket into
//! [`Connection::dispatch`], and fulfils the slots that it hands back.
//!
//! Encoding and decoding need no shared state. A caller that guards the state
//! with a lock can keep the JSON work out of it: [`Connection::reserve_id`],
//! [`encode_call`](crate::wire::encode_call) and [`Connection::enqueue`] make
//! up `begin_call`, and [`read_frame`] and [`Connection::apply`] make up
//! `dispatch`.

use crate::call_id::successor;
use crate::call_id::CallIdAllocator;
use crate::error::Error;
use crate::pending::PendingCallTable;
use crate::wire::decode_response;
use crate::wire::decoded_response;
use crate::wire::encode_call;
use crate::wire::encoded_call;
use crate::wire::text_view;
use crate::wire::ResponseEnvelope;
use crate::wire::ResponseView;
use http::uri::InvalidUri;
use http::Uri;
use serde_json::Error as JsonError;
use serde_json::Value;
use tokio::sync::oneshot::error::RecvError;
use tokio_websockets::Error as SocketError;
use vstd::prelude::*;

verus! {

/// `http::Uri`, carried through unread: a parsed endpoint, ready for the
/// socket.
#[verifier::external_type_specification]
#[verifier::external_body]
pub struct ExUri(Uri);

/// The URI that a text holds, as `http::Uri`'s `FromStr` reads it, or the
/// error that it reports.
pub uninterp spec fn parsed_uri(text: Seq<char>) -> Result<Uri, InvalidUri>;

/// Calls `str::parse` for an `http::Uri`. Trusted: the URI, or the failure, is
/// the one that `parsed_uri` names for this text.
#[verifier::external_body]
fn parse_uri(text: &str) -> (parsed: Result<Uri, InvalidUri>)
    ensures
        parsed == parsed_uri(text@),
{
    text.parse::<Uri>()
}

/// Turns the outcome of parsing an endpoint into the library's result.
pub fn endpoint_of(parsed: Result<Uri, InvalidUri>) -> (endpoint: Result<Uri, Error>)
    ensures
        endpoint == match parsed {
            Ok(uri) => Ok::<Uri, Error>(uri),
            Err(e) => Err(Error::InvalidUri(e)),
        },
{
    match parsed {
        Ok(uri) => Ok(uri),
        Err(e) => Err(Error::InvalidUri(e)),
    }
}

/// Checks that `text` is a URI before any socket is opened. Fails with
/// [`Error::InvalidUri`] exactly when it is not.
pub fn parse_endpoint(text: &str) -> (endpoint: Result<Uri, Error>)
    ensures
        endpoint == match parsed_uri(text@) {
            Ok(uri) => Ok::<Uri, Error>(uri),
            Err(e) => Err(Error::InvalidUri(e)),
        },
{
    endpoint_of(parse_uri(text))
}

/// A frame that is ready to be written: the JSON text of a command, and the id
/// under which its caller waits.
#[derive(Debug, PartialEq, Eq)]
pub struct OutboundFrame {
    pub id: usize,
    pub text: String,
}

/// What reading the socket once came back with.
#[derive(Debug, PartialEq, Eq)]
pub enum Inbound {
    /// The stream has ended.
    Closed,
    /// The read failed; the stream may still go on.
    ReadFailed,
    /// A frame that is not text.
    NotText,
    /// A text frame.
    Text(String),
}

/// Why a frame was passed over.
#[derive(Debug)]
pub enum Skipped {
    /// The read had failed.
    ReadFailed,
    /// The frame was not text.
    NotText,
    /// The text is not a response.
    Malformed(JsonError),
    /// No call waits under the response's id: it was never issued, was
    /// answered or cancelled before, or the frame is an event.
    Unroutable(usize),
}

/// A frame after reading: what the dispatch loop has to act on.
#[derive(Debug)]
pub enum Frame {
    /// The stream has ended.
    End,
    /// Nothing that can be routed, and why.
    Noise(Skipped),
    /// A response to route.
    Response(ResponseEnvelope),
}

/// What the dispatch loop does after one frame.
#[derive(Debug)]
pub enum Dispatch<S> {
    /// Leave the loop: the stream has ended, and every call that was still
    /// in flight has been given up.
    Stop,
    /// Read the next frame; this one changed nothing.
    Skip(Skipped),
    /// Fulfil `slot` with `response`, then read the next frame.
    Deliver { slot: S, response: ResponseEnvelope },
}

impl<S> Dispatch<S> {
    /// The slot to fulfil and the response for it, if there is one.
    pub open spec fn delivery(self) -> Option<(S, ResponseView)> {
        match self {
            Dispatch::Deliver { slot, response } => Some((slot, response@)),
            _ => None,
        }
    }
}

/// What a frame means to the dispatch loop.
pub enum Meaning {
    /// The stream has ended.
    End,
    /// Nothing that can be routed.
    Noise,
    /// A response to route.
    Response(ResponseView),
}

/// Reads the meaning of a frame: only a text frame that decodes is a response.
pub open spec fn meaning(frame: Inbound) -> Meaning {
    match frame {
        Inbound::Closed => Meaning::End,
        Inbound::ReadFailed => Meaning::Noise,
        Inbound::NotText => Meaning::Noise,
        Inbound::Text(text) => match decoded_response(text@) {
            Ok(response) => Meaning::Response(response),
            Err(_) => Meaning::Noise,
        },
    }
}

impl Frame {
    /// What the frame means to the dispatch loop.
    pub open spec fn meaning(self) -> Meaning {
        match self {
            Frame::End => Meaning::End,
            Frame::Noise(_) => Meaning::Noise,
            Frame::Response(response) => Meaning::Response(response@),
        }
    }
}

/// Reads a frame: decodes a text frame and names the reason where there is
/// nothing to route. Touches no shared state, so it can run outside any lock.
pub fn read_frame(frame: Inbound) -> (read: Frame)
    ensures
        read.meaning() == meaning(frame),
        match frame {
            Inbound::Closed => read is End,
            Inbound::ReadFailed => read matches Frame::Noise(Skipped::ReadFailed),
            Inbound::NotText => read matches Frame::Noise(Skipped::NotText),
            Inbound::Text(text) => match decoded_response(text@) {
                Err(e) => read matches Frame::Noise(Skipped::Malformed(reason)) && reason == e,
                Ok(_) => read is Response,
            },
        },
{
    match frame {
        Inbound::Closed => Frame::End,
        Inbound::ReadFailed => Frame::Noise(Skipped::ReadFailed),
        Inbound::NotText => Frame::Noise(Skipped::NotText),
        Inbound::Text(text) => match decode_response(text.as_str()) {
            Err(e) => Frame::Noise(Skipped::Malformed(e)),
            Ok(response) => Frame::Response(response),
        },
    }
}

/// One turn of the dispatch loop as a mathematical value.
pub struct Step<S> {
    /// The pending calls after the frame.
    pub pending: Map<usize, S>,
    /// The slot to fulfil and the response for it, if the frame was routed.
    pub delivery: Option<(S, ResponseView)>,
    /// Whether the loop ends.
    pub stop: bool,
}

/// One turn of the dispatch loop. A response leaves the table together with
/// the slot registered under its id. The end of the stream empties the table:
/// every waiter is given up. Everything else leaves the table alone.
pub open spec fn step<S>(pending: Map<usize, S>, frame: Meaning) -> Step<S> {
    match frame {
        Meaning::End => Step { pending: Map::empty(), delivery: None, stop: true },
        Meaning::Noise => Step { pending, delivery: None, stop: false },
        Meaning::Response(response) => if pending.contains_key(response.id) {
            Step {
                pending: pending.remove(response.id),
                delivery: Some((pending[response.id], response)),
                stop: false,
            }
        } else {
            Step { pending, delivery: None, stop: false }
        },
    }
}

/// How a call ended, as its caller saw it.
#[derive(Debug)]
pub enum CallOutcome {
    /// The frame could not be written.
    WriteFailed(SocketError),
    /// The slot was dropped unfulfilled: the stream has ended, or the call
    /// was given up.
    Abandoned(RecvError),
    /// The slot was fulfilled.
    Answered(ResponseEnvelope),
}

/// The result of a call, given how it ended. A response with an error payload
/// fails the call, whether or not it has a result beside it; a response with
/// neither fails it too.
pub open spec fn call_result(outcome: CallOutcome) -> Result<Value, Error> {
    match outcome {
        CallOutcome::WriteFailed(e) => Err(Error::Socket(e)),
        CallOutcome::Abandoned(e) => Err(Error::Recv(e)),
        CallOutcome::Answered(response) => match response.error {
            Some(e) => Err(Error::Response(Some(e))),
            None => match response.result {
                Some(value) => Ok(value),
                None => Err(Error::Response(None)),
            },
        },
    }
}

/// Turns the way a call ended into what its caller gets.
pub fn finish_call(outcome: CallOutcome) -> (finished: Result<Value, Error>)
    ensures
        finished == call_result(outcome),
{
    match outcome {
        CallOutcome::WriteFailed(e) => Err(Error::Socket(e)),
        CallOutcome::Abandoned(e) => Err(Error::Recv(e)),
        CallOutcome::Answered(response) => match response.error {
            Some(e) => Err(Error::Response(Some(e))),
            None => match response.result {
                Some(value) => Ok(value),
                None => Err(Error::Response(None)),
            },
        },
    }
}

/// The state that all users of one connection share.
#[derive(Debug)]
pub struct Connection<S> {
    ids: CallIdAllocator,
    calls: PendingCallTable<S>,
    closed: bool,
}

impl<S> Connection<S> {
    /// The id that the next call gets.
    pub closed spec fn next_id(&self) -> usize {
        self.ids.next_id()
    }

    /// The calls in flight: the slot of each, by id.
    pub closed spec fn pending(&self) -> Map<usize, S> {
        self.calls@
    }

    /// Whether the end of the stream has been seen.
    pub closed spec fn is_closed(&self) -> bool {
        self.closed
    }

    /// Every call in flight has an id that was handed out before: it lies
    /// below the counter.
    pub open spec fn pending_ids_issued(&self) -> bool {
        forall|id: usize| self.pending().contains_key(id) ==> id < self.next_id()
    }

    /// Once the stream has ended, no call is in flight.
    pub open spec fn quiet_when_closed(&self) -> bool {
        self.is_closed() ==> self.pending() == Map::<usize, S>::empty()
    }

    /// The state of a connection that has just been opened.
    pub fn new() -> (fresh: Self)
        ensures
            fresh.next_id() == 0,
            fresh.pending() == Map::<usize, S>::empty(),
            !fresh.is_closed(),
            fresh.pending_ids_issued(),
            fresh.quiet_when_closed(),
    {
        Connection { ids: CallIdAllocator::new(), calls: PendingCallTable::new(), closed: false }
    }

    /// The number of calls in flight.
    pub fn in_flight(&self) -> (count: usize)
        ensures
            count == self.pending().len(),
    {
        self.calls.len()
    }

    /// Whether a call with this id is in flight.
    pub fn is_pending(&self, id: usize) -> (found: bool)
        ensures
            found == self.pending().contains_key(id),
    {
        self.calls.contains(id)
    }

    /// Whether the end of the stream has been seen.
    pub fn closed(&self) -> (closed: bool)
        ensures
            closed == self.is_closed(),
    {
        self.closed
    }

    /// Takes the next id. The id is used up whatever becomes of the call.
    pub fn reserve_id(&mut self) -> (id: usize)
        ensures
            id == old(self).next_id(),
            final(self).next_id() == successor(old(self).next_id()),
            final(self).pending() == old(self).pending(),
            final(self).is_closed() == old(self).is_closed(),
            old(self).pending_ids_issued() && old(self).next_id() < usize::MAX ==> final(self).pending_ids_issued(),
            old(self).quiet_when_closed() ==> final(self).quiet_when_closed(),
    {
        let id: usize = self.ids.allocate();
        proof {
            if old(self).pending_ids_issued() && old(self).next_id() < usize::MAX {
                assert forall|k: usize| self.pending().contains_key(k) implies k
                    < self.next_id() by {
                    assert(old(self).pending().contains_key(k));
                }
            }
        }
        id
    }

    /// Registers `slot` under `id` if the command was encoded, and hands the
    /// frame out; registers nothing if it was not.
    ///
    /// After the end of the stream nothing is registered any more: the slot
    /// is dropped, and its waiter observes a closed connection.
    pub fn enqueue(&mut self, id: usize, encoded: Result<String, JsonError>, slot: S) -> (started:
        Result<OutboundFrame, Error>)
        ensures
            final(self).next_id() == old(self).next_id(),
            final(self).is_closed() == old(self).is_closed(),
            match encoded {
                Ok(text) => {
                    &&& started == Ok::<OutboundFrame, Error>(OutboundFrame { id, text })
                    &&& final(self).pending() == if old(self).is_closed() {
                        old(self).pending()
                    } else {
                        old(self).pending().insert(id, slot)
                    }
                },
                Err(e) => {
                    &&& started == Err::<OutboundFrame, Error>(Error::Serialize(e))
                    &&& final(self).pending() == old(self).pending()
                },
            },
            old(self).pending_ids_issued() && id < old(self).next_id() ==> final(self).pending_ids_issued(),
            old(self).quiet_when_closed() ==> final(self).quiet_when_closed(),
    {
        match encoded {
            Ok(text) => {
                if !self.closed {
                    self.calls.register(id, slot);
                }
                Ok(OutboundFrame { id, text })
            },
            Err(e) => Err(Error::Serialize(e)),
        }
    }

    /// Starts a call: takes the next id, encodes the command and registers
    /// `slot` under the id.
    ///
    /// The id is used up whether or not the call starts. The frame comes back
    /// only with the slot already in the table, so a response cannot arrive
    /// before its waiter exists. `params` is what serialising the command's
    /// parameters gave. After the end of the stream the slot is dropped
    /// instead, so the caller's wait ends at once with a closed connection.
    ///
    /// A caller that stops waiting takes its slot back with
    /// [`Connection::cancel`]; a slot that is left behind stays until the end
    /// of the stream.
    pub fn begin_call(
        &mut self,
        session_id: Option<String>,
        method: String,
        params: Result<Value, JsonError>,
        slot: S,
    ) -> (started: Result<OutboundFrame, Error>)
        ensures
            final(self).next_id() == successor(old(self).next_id()),
            final(self).is_closed() == old(self).is_closed(),
            match encoded_call(old(self).next_id(), text_view(session_id), method@, params) {
                Ok(text) => {
                    &&& started matches Ok(frame)
                    &&& frame.id == old(self).next_id()
                    &&& frame.text@ == text
                    &&& final(self).pending() == if old(self).is_closed() {
                        old(self).pending()
                    } else {
                        old(self).pending().insert(old(self).next_id(), slot)
                    }
                },
                Err(e) => {
                    &&& started == Err::<OutboundFrame, Error>(Error::Serialize(e))
                    &&& final(self).pending() == old(self).pending()
                },
            },
            old(self).pending_ids_issued() && old(self).next_id() < usize::MAX ==> final(self).pending_ids_issued(),
            old(self).quiet_when_closed() ==> final(self).quiet_when_closed(),
    {
        let id: usize = self.reserve_id();
        let encoded = encode_call(id, session_id, method, params);
        self.enqueue(id, encoded, slot)
    }

    /// Gives up the call `id`: takes its slot out of the table, if it is
    /// still there, and leaves every other call alone. For a caller that
    /// stops waiting; a response that arrives later is passed over.
    pub fn cancel(&mut self, id: usize) -> (slot: Option<S>)
        ensures
            final(self).next_id() == old(self).next_id(),
            final(self).is_closed() == old(self).is_closed(),
            final(self).pending() == old(self).pending().remove(id),
            slot == if old(self).pending().contains_key(id) {
                Some(old(self).pending()[id])
            } else {
                None
            },
            old(self).pending_ids_issued() ==> final(self).pending_ids_issued(),
            old(self).quiet_when_closed() ==> final(self).quiet_when_closed(),
    {
        let slot = self.calls.take(id);
        proof {
            if self.closed && old(self).quiet_when_closed() {
                assert(self.calls@ =~= Map::<usize, S>::empty());
            }
        }
        slot
    }

    /// Routes a decoded response: takes the slot registered under its id out
    /// of the table and hands both back. A response that nobody waits for is
    /// passed over, and no other call is touched.
    pub fn route(&mut self, response: ResponseEnvelope) -> (out: Dispatch<S>)
        ensures
            final(self).next_id() == old(self).next_id(),
            final(self).is_closed() == old(self).is_closed(),
            final(self).pending() == step(
                old(self).pending(),
                Meaning::Response(response@),
            ).pending,
            if old(self).pending().contains_key(response.id) {
                out == (Dispatch::Deliver { slot: old(self).pending()[response.id], response })
            } else {
                out == Dispatch::<S>::Skip(Skipped::Unroutable(response.id))
            },
            old(self).pending_ids_issued() ==> final(self).pending_ids_issued(),
            old(self).quiet_when_closed() ==> final(self).quiet_when_closed(),
    {
        let taken = self.calls.take(response.id);
        proof {
            if self.closed && old(self).quiet_when_closed() {
                assert(self.calls@ =~= Map::<usize, S>::empty());
            }
        }
        match taken {
            Some(slot) => Dispatch::Deliver { slot, response },
            None => Dispatch::Skip(Skipped::Unroutable(response.id)),
        }
    }

    /// Acts on a frame that was read.
    ///
    /// Only the end of the stream stops the loop, and it gives up every call
    /// in flight: the table is emptied and the slots are dropped, so each
    /// waiter observes a closed connection. Noise is passed over and changes
    /// nothing. A response is routed as [`Connection::route`] does.
    pub fn apply(&mut self, read: Frame) -> (out: Dispatch<S>)
        ensures
            final(self).next_id() == old(self).next_id(),
            final(self).is_closed() == (old(self).is_closed() || read is End),
            final(self).pending() == step(old(self).pending(), read.meaning()).pending,
            out.delivery() == step(old(self).pending(), read.meaning()).delivery,
            (out is Stop) == step(old(self).pending(), read.meaning()).stop,
            match read {
                Frame::End => out is Stop,
                Frame::Noise(reason) => out == Dispatch::<S>::Skip(reason),
                Frame::Response(response) => if old(self).pending().contains_key(response.id) {
                    out == (Dispatch::Deliver { slot: old(self).pending()[response.id], response })
                } else {
                    out == Dispatch::<S>::Skip(Skipped::Unroutable(response.id))
                },
            },
            old(self).pending_ids_issued() ==> final(self).pending_ids_issued(),
            old(self).quiet_when_closed() ==> final(self).quiet_when_closed(),
    {
        match read {
            Frame::End => {
                self.calls.clear();
                self.closed = true;
                Dispatch::Stop
            },
            Frame::Noise(reason) => Dispatch::Skip(reason),
            Frame::Response(response) => self.route(response),
        }
    }

    /// One turn of the dispatch loop: reads a frame and acts on it.
    ///
    /// Only the end of the stream stops the loop; it leaves no call in
    /// flight. A failed read, a frame that is not text and a text that does
    /// not decode are passed over and change nothing. A response is routed as
    /// [`Connection::route`] does.
    pub fn dispatch(&mut self, frame: Inbound) -> (out: Dispatch<S>)
        ensures
            final(self).next_id() == old(self).next_id(),
            final(self).is_closed() == (old(self).is_closed() || frame is Closed),
            final(self).pending() == step(old(self).pending(), meaning(frame)).pending,
            out.delivery() == step(old(self).pending(), meaning(frame)).delivery,
            (out is Stop) == step(old(self).pending(), meaning(frame)).stop,
            match frame {
                Inbound::Closed => out is Stop,
                Inbound::ReadFailed => out == Dispatch::<S>::Skip(Skipped::ReadFailed),
                Inbound::NotText => out == Dispatch::<S>::Skip(Skipped::NotText),
                Inbound::Text(text) => match decoded_response(text@) {
                    Err(e) => out == Dispatch::<S>::Skip(Skipped::Malformed(e)),
                    Ok(response) => {
                        ||| out matches Dispatch::Deliver { .. }
                        ||| out == Dispatch::<S>::Skip(Skipped::Unroutable(response.id))
                    },
                },
            },
            old(self).pending_ids_issued() ==> final(self).pending_ids_issued(),
            old(self).quiet_when_closed() ==> final(self).quiet_when_closed(),
    {
        self.apply(read_frame(frame))
    }
}

} // verus!
