//! The resolver's side of the transport: what to do with each connection
//! from the proxy, and how the secret key is kept and rotated.
//!
//! Nothing here touches a socket. A connection is a small state machine:
//! the caller performs the action it is handed, reports what happened as an
//! event, and is handed the next action, until the action is to close.
//!
//! ```text
//! read prefix -> read payload -> decrypt -> check query -> ask upstream
//!             -> check reply -> write one frame -> close
//! ```

use crate::codec_primitives::{dns_message_parses, dns_message_well_formed};
use crate::crypto::{decrypt_query, spec_decrypt_query, Error, SecretKey};
use crate::protocol::{
    parse_length_prefix, spec_frame, spec_prefix_value, write_framed, FrameError, MAX_PAYLOAD,
    PREFIX_LEN,
};
use vstd::prelude::*;

verus! {

/// How long to wait for the upstream server's reply, in seconds.
pub const UPSTREAM_TIMEOUT_SECS: u64 = 5;

/// Size of the buffer that receives the upstream server's reply.
pub const UPSTREAM_BUFFER_LEN: usize = 4096;

/// Why a connection was given up.
#[derive(Debug, Clone, Copy, PartialEq, Eq, Structural)]
pub enum ResolverError {
    /// The stream closed or failed while reading or writing.
    Transport,
    /// The incoming frame was malformed.
    Frame(FrameError),
    /// The query could not be decrypted.
    Crypto(Error),
    /// The decrypted query is not a DNS message.
    MalformedQuery,
    /// The upstream server did not answer in time.
    UpstreamTimeout,
    /// The upstream server could not be reached.
    UpstreamFailed,
    /// The upstream server's reply is not a DNS message.
    MalformedReply,
    /// An event arrived that the connection was not waiting for.
    OutOfOrder,
}

/// Where a connection stands.
#[derive(Debug, Clone, Copy, PartialEq, Eq, Structural)]
pub enum ResolverPhase {
    /// Waiting for the two bytes of the length prefix.
    ReadingPrefix,
    /// Waiting for the payload that the prefix announced.
    ReadingPayload { len: usize },
    /// Waiting for the upstream server.
    Resolving,
    /// Waiting for the reply to be written out.
    Replying,
    /// Nothing more happens on this connection.
    Closed,
}

/// What happened since the last action.
pub enum ResolverEvent {
    /// The bytes that were asked for have all arrived.
    Received { bytes: Vec<u8> },
    /// The bytes that were to be written have been written and flushed.
    Written,
    /// The stream closed or failed.
    StreamFailed,
    /// The upstream server replied with this datagram.
    UpstreamReply { datagram: Vec<u8> },
    /// The upstream server did not reply in time.
    UpstreamTimedOut,
    /// The query could not be sent or the reply not received.
    UpstreamFailed,
}

/// What the caller is to do next.
pub enum ResolverAction {
    /// Read exactly `len` bytes from the proxy.
    Read { len: usize },
    /// Send `query` to the upstream server and wait for its reply.
    AskUpstream { query: Vec<u8> },
    /// Write `bytes` to the proxy and flush.
    Write { bytes: Vec<u8> },
    /// Close the connection. `Err` is to be logged; no other connection is
    /// affected.
    Close { outcome: Result<(), ResolverError> },
}

/// The action `action` closes the connection with `outcome`.
pub open spec fn closes_with(action: ResolverAction, outcome: Result<(), ResolverError>) -> bool {
    action matches ResolverAction::Close { outcome: o } && o == outcome
}

/// The step that a complete payload calls for: decrypt it and, if what comes
/// out is a DNS message, ask the upstream server.
pub open spec fn payload_step(
    payload: Seq<u8>,
    secret_key: Seq<u8>,
    next: ResolverPhase,
    action: ResolverAction,
) -> bool {
    match spec_decrypt_query(payload, secret_key) {
        Err(e) => next == ResolverPhase::Closed && closes_with(
            action,
            Err(ResolverError::Crypto(e)),
        ),
        Ok(query) => if dns_message_well_formed(query) {
            next == ResolverPhase::Resolving && (action matches ResolverAction::AskUpstream {
                query: q,
            } && q@ == query)
        } else {
            next == ResolverPhase::Closed && closes_with(action, Err(ResolverError::MalformedQuery))
        },
    }
}

/// The step that the upstream server's reply calls for: if it is a DNS
/// message that fits a frame, write it to the proxy as one frame.
pub open spec fn reply_step(datagram: Seq<u8>, next: ResolverPhase, action: ResolverAction) -> bool {
    if !dns_message_well_formed(datagram) {
        next == ResolverPhase::Closed && closes_with(action, Err(ResolverError::MalformedReply))
    } else if datagram.len() > MAX_PAYLOAD {
        next == ResolverPhase::Closed && closes_with(
            action,
            Err(
                ResolverError::Frame(FrameError::PayloadTooLarge { len: datagram.len() as usize }),
            ),
        )
    } else {
        next == ResolverPhase::Replying && (action matches ResolverAction::Write { bytes: b }
            && b@ == spec_frame(datagram))
    }
}

/// Whether `next` and `action` are the step from `phase` on `event` under
/// `secret_key`. For every phase, event and key exactly one phase and, up to
/// the bytes it carries, one action qualify.
pub open spec fn resolver_transition(
    phase: ResolverPhase,
    event: ResolverEvent,
    secret_key: Seq<u8>,
    next: ResolverPhase,
    action: ResolverAction,
) -> bool {
    match (phase, event) {
        (ResolverPhase::Closed, _) => next == ResolverPhase::Closed && closes_with(
            action,
            Err(ResolverError::OutOfOrder),
        ),
        (_, ResolverEvent::StreamFailed) => next == ResolverPhase::Closed && closes_with(
            action,
            Err(ResolverError::Transport),
        ),
        (ResolverPhase::ReadingPrefix, ResolverEvent::Received { bytes }) => if bytes@.len()
            != PREFIX_LEN {
            next == ResolverPhase::Closed && closes_with(action, Err(ResolverError::Transport))
        } else if spec_prefix_value(bytes@[0], bytes@[1]) == 0 {
            next == ResolverPhase::Closed && closes_with(
                action,
                Err(ResolverError::Frame(FrameError::ZeroLength)),
            )
        } else {
            next == (ResolverPhase::ReadingPayload {
                len: spec_prefix_value(bytes@[0], bytes@[1]) as usize,
            }) && action == (ResolverAction::Read {
                len: spec_prefix_value(bytes@[0], bytes@[1]) as usize,
            })
        },
        (ResolverPhase::ReadingPayload { len }, ResolverEvent::Received { bytes }) => if bytes@.len()
            != len {
            next == ResolverPhase::Closed && closes_with(action, Err(ResolverError::Transport))
        } else {
            payload_step(bytes@, secret_key, next, action)
        },
        (ResolverPhase::Resolving, ResolverEvent::UpstreamReply { datagram }) => reply_step(
            datagram@,
            next,
            action,
        ),
        (ResolverPhase::Resolving, ResolverEvent::UpstreamTimedOut) => next
            == ResolverPhase::Closed && closes_with(action, Err(ResolverError::UpstreamTimeout)),
        (ResolverPhase::Resolving, ResolverEvent::UpstreamFailed) => next == ResolverPhase::Closed
            && closes_with(action, Err(ResolverError::UpstreamFailed)),
        (ResolverPhase::Replying, ResolverEvent::Written) => next == ResolverPhase::Closed
            && closes_with(action, Ok(())),
        _ => next == ResolverPhase::Closed && closes_with(action, Err(ResolverError::OutOfOrder)),
    }
}

/// Opens a connection: the first thing to do is to read the length prefix.
pub fn resolver_start() -> (first: (ResolverPhase, ResolverAction))
    ensures
        first.0 == ResolverPhase::ReadingPrefix,
        first.1 == (ResolverAction::Read { len: PREFIX_LEN }),
{
    (ResolverPhase::ReadingPrefix, ResolverAction::Read { len: PREFIX_LEN })
}

fn close(error: ResolverError) -> (step: (ResolverPhase, ResolverAction))
    ensures
        step.0 == ResolverPhase::Closed,
        closes_with(step.1, Err(error)),
{
    (ResolverPhase::Closed, ResolverAction::Close { outcome: Err(error) })
}

/// Decrypts a complete payload and decides what follows.
pub fn accept_payload(payload: &[u8], secret_key: &SecretKey) -> (step: (
    ResolverPhase,
    ResolverAction,
))
    ensures
        payload_step(payload@, secret_key@, step.0, step.1),
{
    let query: Vec<u8> = match decrypt_query(payload, secret_key) {
        Ok(query) => query,
        Err(e) => {
            return close(ResolverError::Crypto(e));
        },
    };
    if !dns_message_parses(query.as_slice()) {
        return close(ResolverError::MalformedQuery);
    }
    (ResolverPhase::Resolving, ResolverAction::AskUpstream { query })
}

/// Checks the upstream server's reply and frames it for the proxy.
pub fn accept_reply(datagram: &[u8]) -> (step: (ResolverPhase, ResolverAction))
    ensures
        reply_step(datagram@, step.0, step.1),
{
    if !dns_message_parses(datagram) {
        return close(ResolverError::MalformedReply);
    }
    let mut bytes: Vec<u8> = Vec::new();
    match write_framed(&mut bytes, datagram) {
        Ok(()) => {
            assert(bytes@ =~= spec_frame(datagram@));
            (ResolverPhase::Replying, ResolverAction::Write { bytes })
        },
        Err(e) => close(ResolverError::Frame(e)),
    }
}

/// Takes one step of a connection: from the phase it is in and what just
/// happened to the phase it is in next and what to do now.
///
/// The secret key is only read, so a step that began under one key is not
/// disturbed by a rotation that follows it.
pub fn resolver_step(phase: ResolverPhase, event: ResolverEvent, secret_key: &SecretKey) -> (step: (
    ResolverPhase,
    ResolverAction,
))
    ensures
        resolver_transition(phase, event, secret_key@, step.0, step.1),
{
    match phase {
        ResolverPhase::Closed => close(ResolverError::OutOfOrder),
        ResolverPhase::ReadingPrefix => match event {
            ResolverEvent::StreamFailed => close(ResolverError::Transport),
            ResolverEvent::Received { bytes } => {
                if bytes.len() != PREFIX_LEN {
                    return close(ResolverError::Transport);
                }
                match parse_length_prefix(bytes[0], bytes[1]) {
                    Ok(len) => (ResolverPhase::ReadingPayload { len }, ResolverAction::Read { len }),
                    Err(e) => close(ResolverError::Frame(e)),
                }
            },
            _ => close(ResolverError::OutOfOrder),
        },
        ResolverPhase::ReadingPayload { len } => match event {
            ResolverEvent::StreamFailed => close(ResolverError::Transport),
            ResolverEvent::Received { bytes } => {
                if bytes.len() != len {
                    return close(ResolverError::Transport);
                }
                accept_payload(bytes.as_slice(), secret_key)
            },
            _ => close(ResolverError::OutOfOrder),
        },
        ResolverPhase::Resolving => match event {
            ResolverEvent::StreamFailed => close(ResolverError::Transport),
            ResolverEvent::UpstreamReply { datagram } => accept_reply(datagram.as_slice()),
            ResolverEvent::UpstreamTimedOut => close(ResolverError::UpstreamTimeout),
            ResolverEvent::UpstreamFailed => close(ResolverError::UpstreamFailed),
            _ => close(ResolverError::OutOfOrder),
        },
        ResolverPhase::Replying => match event {
            ResolverEvent::StreamFailed => close(ResolverError::Transport),
            ResolverEvent::Written => (
                ResolverPhase::Closed,
                ResolverAction::Close { outcome: Ok(()) },
            ),
            _ => close(ResolverError::OutOfOrder),
        },
    }
}

} // verus!
