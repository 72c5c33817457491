//! The proxy's side of the transport: what to do with each client
//! connection.
//!
//! The proxy sees who asks and never lets the resolver see it; the resolver
//! sees what is asked, which the proxy forwards only in encrypted form. As
//! on the resolver's side nothing here touches a socket: the caller performs
//! the action it is handed and reports what happened.
//!
//! ```text
//! handshake -> read one frame -> encrypt -> send to resolver
//!           -> read one frame from resolver -> write it to the client -> close
//! ```

use crate::crypto::{encrypt_query, spec_sealed_for, Error, PublicKey, OVERHEAD};
use crate::primitives::aead_accepts;
use crate::protocol::{
    parse_length_prefix, spec_frame, spec_prefix_value, write_framed, FrameError, MAX_PAYLOAD,
    PREFIX_LEN,
};
use vstd::prelude::*;

verus! {

/// Why a connection was given up.
#[derive(Debug, Clone, Copy, PartialEq, Eq, Structural)]
pub enum ProxyError {
    /// The TLS handshake failed, or the client's stream closed or failed.
    Client,
    /// The resolver could not be reached, or its stream closed or failed.
    Resolver,
    /// A frame was malformed or could not be built.
    Frame(FrameError),
    /// The query could not be encrypted.
    Crypto(Error),
    /// An event arrived that the connection was not waiting for.
    OutOfOrder,
}

/// Where a connection stands.
#[derive(Debug, Clone, Copy, PartialEq, Eq, Structural)]
pub enum ProxyPhase {
    /// Waiting for the TLS handshake with the client.
    Handshaking,
    /// Waiting for the length prefix of the client's query.
    ReadingPrefix,
    /// Waiting for the client's query.
    ReadingPayload { len: usize },
    /// Waiting for the encrypted query to be sent to the resolver.
    Forwarding,
    /// Waiting for the length prefix of the resolver's reply.
    ReadingReplyPrefix,
    /// Waiting for the resolver's reply.
    ReadingReplyPayload { len: usize },
    /// Waiting for the reply to be written to the client.
    Replying,
    /// Nothing more happens on this connection.
    Closed,
}

/// What happened since the last action.
pub enum ProxyEvent {
    /// The TLS handshake succeeded.
    HandshakeDone,
    /// The bytes that were asked for have all arrived.
    Received { bytes: Vec<u8> },
    /// The bytes that were to be written have been written and flushed.
    Written,
    /// The handshake failed, or the client's stream closed or failed.
    ClientFailed,
    /// The resolver could not be reached, or its stream closed or failed.
    ResolverFailed,
}

/// What the caller is to do next.
pub enum ProxyAction {
    /// Perform the TLS handshake with the client.
    Handshake,
    /// Read exactly `len` bytes from the client.
    ReadClient { len: usize },
    /// Connect to the resolver, write `bytes` to it and flush.
    SendToResolver { bytes: Vec<u8> },
    /// Read exactly `len` bytes from the resolver.
    ReadResolver { len: usize },
    /// Write `bytes` to the client and flush.
    WriteClient { bytes: Vec<u8> },
    /// Close the connection. `Err` is to be logged; no other connection is
    /// affected.
    Close { outcome: Result<(), ProxyError> },
}

/// The action `action` closes the connection with `outcome`.
pub open spec fn closes_with(action: ProxyAction, outcome: Result<(), ProxyError>) -> bool {
    action matches ProxyAction::Close { outcome: o } && o == outcome
}

/// Whether a peer is served at all: in IPv6-only mode a peer with an IPv4
/// address, be it written as such or mapped into IPv6, is turned away
/// before any handshake.
pub open spec fn spec_admit_peer(ipv6_only: bool, peer_is_ipv4: bool) -> bool {
    !(ipv6_only && peer_is_ipv4)
}

/// The step that a length prefix calls for, where `waiting` is the phase
/// that waits for the payload, `asking` the action that asks for it, and
/// `failure` the error for a prefix that did not arrive whole.
pub open spec fn prefix_step(
    bytes: Seq<u8>,
    failure: ProxyError,
    waiting: ProxyPhase,
    asking: ProxyAction,
    next: ProxyPhase,
    action: ProxyAction,
) -> bool {
    if bytes.len() != PREFIX_LEN {
        next == ProxyPhase::Closed && closes_with(action, Err(failure))
    } else if spec_prefix_value(bytes[0], bytes[1]) == 0 {
        next == ProxyPhase::Closed && closes_with(
            action,
            Err(ProxyError::Frame(FrameError::ZeroLength)),
        )
    } else {
        next == waiting && action == asking
    }
}

/// The step that the client's query calls for: encrypt it and send it to the
/// resolver as one frame. Encryption is randomised, so of the bytes sent
/// this says what holds whatever was drawn: they are one frame around an
/// encryption of the query.
pub open spec fn forward_step(query: Seq<u8>, next: ProxyPhase, action: ProxyAction) -> bool {
    if !aead_accepts(query.len() as int) {
        next == ProxyPhase::Closed && closes_with(
            action,
            Err(ProxyError::Crypto(Error::EncryptionFailed)),
        )
    } else if query.len() + OVERHEAD > MAX_PAYLOAD {
        next == ProxyPhase::Closed && closes_with(
            action,
            Err(
                ProxyError::Frame(
                    FrameError::PayloadTooLarge { len: (query.len() + OVERHEAD) as usize },
                ),
            ),
        )
    } else {
        next == ProxyPhase::Forwarding && (action matches ProxyAction::SendToResolver { bytes: b }
            && exists|encrypted: Seq<u8>, shared_secret: Seq<u8>|
            b@ == #[trigger] spec_frame(encrypted) && #[trigger] spec_sealed_for(
                encrypted,
                query,
                shared_secret,
            ))
    }
}

/// The step that the resolver's reply calls for: write it to the client as
/// one frame.
pub open spec fn reply_step(reply: Seq<u8>, next: ProxyPhase, action: ProxyAction) -> bool {
    if reply.len() > MAX_PAYLOAD {
        next == ProxyPhase::Closed && closes_with(
            action,
            Err(ProxyError::Frame(FrameError::PayloadTooLarge { len: reply.len() as usize })),
        )
    } else {
        next == ProxyPhase::Replying && (action matches ProxyAction::WriteClient { bytes: b }
            && b@ == spec_frame(reply))
    }
}

/// Whether `next` and `action` are the step from `phase` on `event`.
pub open spec fn proxy_transition(
    phase: ProxyPhase,
    event: ProxyEvent,
    next: ProxyPhase,
    action: ProxyAction,
) -> bool {
    match (phase, event) {
        (ProxyPhase::Closed, _) => next == ProxyPhase::Closed && closes_with(
            action,
            Err(ProxyError::OutOfOrder),
        ),
        (_, ProxyEvent::ClientFailed) => next == ProxyPhase::Closed && closes_with(
            action,
            Err(ProxyError::Client),
        ),
        (_, ProxyEvent::ResolverFailed) => next == ProxyPhase::Closed && closes_with(
            action,
            Err(ProxyError::Resolver),
        ),
        (ProxyPhase::Handshaking, ProxyEvent::HandshakeDone) => next == ProxyPhase::ReadingPrefix
            && action == (ProxyAction::ReadClient { len: PREFIX_LEN }),
        (ProxyPhase::ReadingPrefix, ProxyEvent::Received { bytes }) => prefix_step(
            bytes@,
            ProxyError::Client,
            ProxyPhase::ReadingPayload { len: spec_prefix_value(bytes@[0], bytes@[1]) as usize },
            ProxyAction::ReadClient { len: spec_prefix_value(bytes@[0], bytes@[1]) as usize },
            next,
            action,
        ),
        (ProxyPhase::ReadingPayload { len }, ProxyEvent::Received { bytes }) => if bytes@.len()
            != len {
            next == ProxyPhase::Closed && closes_with(action, Err(ProxyError::Client))
        } else {
            forward_step(bytes@, next, action)
        },
        (ProxyPhase::Forwarding, ProxyEvent::Written) => next == ProxyPhase::ReadingReplyPrefix
            && action == (ProxyAction::ReadResolver { len: PREFIX_LEN }),
        (ProxyPhase::ReadingReplyPrefix, ProxyEvent::Received { bytes }) => prefix_step(
            bytes@,
            ProxyError::Resolver,
            ProxyPhase::ReadingReplyPayload {
                len: spec_prefix_value(bytes@[0], bytes@[1]) as usize,
            },
            ProxyAction::ReadResolver { len: spec_prefix_value(bytes@[0], bytes@[1]) as usize },
            next,
            action,
        ),
        (ProxyPhase::ReadingReplyPayload { len }, ProxyEvent::Received { bytes }) => if bytes@.len()
            != len {
            next == ProxyPhase::Closed && closes_with(action, Err(ProxyError::Resolver))
        } else {
            reply_step(bytes@, next, action)
        },
        (ProxyPhase::Replying, ProxyEvent::Written) => next == ProxyPhase::Closed && closes_with(
            action,
            Ok(()),
        ),
        _ => next == ProxyPhase::Closed && closes_with(action, Err(ProxyError::OutOfOrder)),
    }
}

/// Decides whether an accepted peer is served. `peer_is_ipv4` says whether
/// the peer's address is an IPv4 address or an IPv4 address mapped into
/// IPv6.
pub fn admit_peer(ipv6_only: bool, peer_is_ipv4: bool) -> (admitted: bool)
    ensures
        admitted == spec_admit_peer(ipv6_only, peer_is_ipv4),
{
    !(ipv6_only && peer_is_ipv4)
}

/// Opens a connection: the first thing to do is the TLS handshake.
pub fn proxy_start() -> (first: (ProxyPhase, ProxyAction))
    ensures
        first.0 == ProxyPhase::Handshaking,
        first.1 == ProxyAction::Handshake,
{
    (ProxyPhase::Handshaking, ProxyAction::Handshake)
}

fn close(error: ProxyError) -> (step: (ProxyPhase, ProxyAction))
    ensures
        step.0 == ProxyPhase::Closed,
        closes_with(step.1, Err(error)),
{
    (ProxyPhase::Closed, ProxyAction::Close { outcome: Err(error) })
}

/// Encrypts the client's query for the resolver and frames it.
pub fn forward_query(query: &[u8], public_key: &PublicKey) -> (step: (ProxyPhase, ProxyAction))
    ensures
        forward_step(query@, step.0, step.1),
{
    let encrypted: Vec<u8> = match encrypt_query(query, public_key) {
        Ok(encrypted) => encrypted,
        Err(e) => {
            return close(ProxyError::Crypto(e));
        },
    };
    let mut bytes: Vec<u8> = Vec::new();
    match write_framed(&mut bytes, encrypted.as_slice()) {
        Ok(()) => {
            proof {
                assert(bytes@ =~= spec_frame(encrypted@));
                let shared_secret = choose|shared_secret: Seq<u8>|
                    spec_sealed_for(encrypted@, query@, shared_secret);
                assert(spec_sealed_for(encrypted@, query@, shared_secret));
            }
            (ProxyPhase::Forwarding, ProxyAction::SendToResolver { bytes })
        },
        Err(e) => close(ProxyError::Frame(e)),
    }
}

/// Frames the resolver's reply for the client.
pub fn relay_reply(reply: &[u8]) -> (step: (ProxyPhase, ProxyAction))
    ensures
        reply_step(reply@, step.0, step.1),
{
    let mut bytes: Vec<u8> = Vec::new();
    match write_framed(&mut bytes, reply) {
        Ok(()) => {
            assert(bytes@ =~= spec_frame(reply@));
            (ProxyPhase::Replying, ProxyAction::WriteClient { bytes })
        },
        Err(e) => close(ProxyError::Frame(e)),
    }
}

/// Takes one step of a connection: from the phase it is in and what just
/// happened to the phase it is in next and what to do now.
pub fn proxy_step(phase: ProxyPhase, event: ProxyEvent, public_key: &PublicKey) -> (step: (
    ProxyPhase,
    ProxyAction,
))
    ensures
        proxy_transition(phase, event, step.0, step.1),
{
    match phase {
        ProxyPhase::Closed => {
            return close(ProxyError::OutOfOrder);
        },
        _ => {},
    }
    match event {
        ProxyEvent::ClientFailed => close(ProxyError::Client),
        ProxyEvent::ResolverFailed => close(ProxyError::Resolver),
        ProxyEvent::HandshakeDone => match phase {
            ProxyPhase::Handshaking => (
                ProxyPhase::ReadingPrefix,
                ProxyAction::ReadClient { len: PREFIX_LEN },
            ),
            _ => close(ProxyError::OutOfOrder),
        },
        ProxyEvent::Written => match phase {
            ProxyPhase::Forwarding => (
                ProxyPhase::ReadingReplyPrefix,
                ProxyAction::ReadResolver { len: PREFIX_LEN },
            ),
            ProxyPhase::Replying => (ProxyPhase::Closed, ProxyAction::Close { outcome: Ok(()) }),
            _ => close(ProxyError::OutOfOrder),
        },
        ProxyEvent::Received { bytes } => match phase {
            ProxyPhase::ReadingPrefix => {
                if bytes.len() != PREFIX_LEN {
                    return close(ProxyError::Client);
                }
                match parse_length_prefix(bytes[0], bytes[1]) {
                    Ok(len) => (
                        ProxyPhase::ReadingPayload { len },
                        ProxyAction::ReadClient { len },
                    ),
                    Err(e) => close(ProxyError::Frame(e)),
                }
            },
            ProxyPhase::ReadingPayload { len } => {
                if bytes.len() != len {
                    return close(ProxyError::Client);
                }
                forward_query(bytes.as_slice(), public_key)
            },
            ProxyPhase::ReadingReplyPrefix => {
                if bytes.len() != PREFIX_LEN {
                    return close(ProxyError::Resolver);
                }
                match parse_length_prefix(bytes[0], bytes[1]) {
                    Ok(len) => (
                        ProxyPhase::ReadingReplyPayload { len },
                        ProxyAction::ReadResolver { len },
                    ),
                    Err(e) => close(ProxyError::Frame(e)),
                }
            },
            ProxyPhase::ReadingReplyPayload { len } => {
                if bytes.len() != len {
                    return close(ProxyError::Resolver);
                }
                relay_reply(bytes.as_slice())
            },
            _ => close(ProxyError::OutOfOrder),
        },
    }
}

} // verus!
