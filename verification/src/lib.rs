//! Sans-I/O core of a browser remote-debugging client.
//!
//! The crate holds the bookkeeping of one protocol connection: the call-id
//! counter, the table of pending calls, the wire envelopes and the routing of
//! inbound frames to their waiters. Sockets, processes and timers are left to
//! the caller, who feeds their outcomes in as plain values.

pub mod browser;
pub mod call_id;
pub mod connection;
pub mod error;
pub mod launcher;
pub mod pending;
pub mod routing;
pub mod session;
pub mod wire;

pub use crate::browser::{NewPage, NewPageStep, PageTarget, TargetRequest};
pub use crate::call_id::CallIdAllocator;
pub use crate::connection::{
    finish_call, parse_endpoint, read_frame, CallOutcome, Connection, Dispatch, Frame, Inbound,
    OutboundFrame, Skipped,
};
pub use crate::error::{Error, ProtocolError};
pub use crate::launcher::{
    check_spawn, discovery_step, find_endpoint, launch_command, Discovery, DiscoveryEvent,
    LaunchCommand,
};
pub use crate::pending::PendingCallTable;
pub use crate::session::CdpSession;
pub use crate::wire::{encode_call, CommandEnvelope, ResponseEnvelope};
