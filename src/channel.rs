//! The application-facing channel operations. Each decides what the worker
//! runtime is to do; the runtime starts, stops and feeds the workers.
use vstd::prelude::*;
use crate::handshake::{HandshakeState, IdentityIdentifier};
use crate::transport::{copy_route, Address};

verus! {

/// How long an initiator waits for its handshake unless told otherwise: two
/// minutes, in milliseconds.
pub const DEFAULT_HANDSHAKE_TIMEOUT_MS: u64 = 120_000;

/// A worker for the runtime to start or stop.
pub enum ChannelAction {
    /// Start a listener at `address` that answers each opening handshake
    /// with a fresh responder.
    StartListener { address: Address, identity: IdentityIdentifier },
    /// Start an initiator that runs `state` towards `route`, aborting after
    /// `timeout_ms`.
    StartInitiator {
        route: Vec<Address>,
        timeout_ms: u64,
        state: HandshakeState,
        identity: IdentityIdentifier,
    },
    /// Start a responder for one channel opened at a listener.
    StartResponder { state: HandshakeState, identity: IdentityIdentifier },
    /// Stop the workers of the channel at `address`.
    StopWorker { address: Address },
}

/// A principal that opens and accepts secure channels.
pub struct Identity {
    pub identifier: IdentityIdentifier,
}

impl Identity {
    pub fn new(identifier: IdentityIdentifier) -> (r: Self)
        ensures
            r.identifier == identifier,
    {
        Identity { identifier }
    }

    /// Listens at `address` for channels opened by others.
    pub fn create_secure_channel_listener(&self, address: Address) -> (r: ChannelAction)
        ensures
            r == (ChannelAction::StartListener { address, identity: self.identifier }),
    {
        ChannelAction::StartListener { address, identity: self.identifier.copy() }
    }

    /// What a listener does with an opening handshake message: a new
    /// responder, whose handshake starts at the key exchange.
    pub fn accept_secure_channel(&self) -> (r: ChannelAction)
        ensures
            r == (ChannelAction::StartResponder {
                state: HandshakeState::KeyExchange { initiator: false },
                identity: self.identifier,
            }),
    {
        ChannelAction::StartResponder {
            state: HandshakeState::new(false),
            identity: self.identifier.copy(),
        }
    }

    /// Opens a channel to `route`, with the default handshake timeout.
    pub fn create_secure_channel(&self, route: &Vec<Address>) -> (r: ChannelAction)
        ensures
            match r {
                ChannelAction::StartInitiator { route: rt, timeout_ms, state, identity } => {
                    &&& rt@ == route@
                    &&& timeout_ms == DEFAULT_HANDSHAKE_TIMEOUT_MS
                    &&& state == (HandshakeState::KeyExchange { initiator: true })
                    &&& identity == self.identifier
                },
                _ => false,
            },
    {
        self.create_secure_channel_extended(route, DEFAULT_HANDSHAKE_TIMEOUT_MS)
    }

    /// Opens a channel to `route`, aborting the handshake after `timeout_ms`.
    pub fn create_secure_channel_extended(&self, route: &Vec<Address>, timeout_ms: u64) -> (r:
        ChannelAction)
        ensures
            match r {
                ChannelAction::StartInitiator { route: rt, timeout_ms: t, state, identity } => {
                    &&& rt@ == route@
                    &&& t == timeout_ms
                    &&& state == (HandshakeState::KeyExchange { initiator: true })
                    &&& identity == self.identifier
                },
                _ => false,
            },
    {
        ChannelAction::StartInitiator {
            route: copy_route(route),
            timeout_ms,
            state: HandshakeState::new(true),
            identity: self.identifier.copy(),
        }
    }

    /// Closes the channel at `channel`.
    pub fn stop_secure_channel(&self, channel: &Address) -> (r: ChannelAction)
        ensures
            r == (ChannelAction::StopWorker { address: *channel }),
    {
        ChannelAction::StopWorker { address: channel.copy() }
    }
}

/// Whether a handshake started at `started_ms` has run out of time at
/// `now_ms`. A clock that reads earlier than the start has not.
pub fn deadline_passed(started_ms: u64, now_ms: u64, timeout_ms: u64) -> (r: bool)
    ensures
        r == (now_ms >= started_ms && now_ms - started_ms >= timeout_ms),
{
    now_ms >= started_ms && now_ms - started_ms >= timeout_ms
}

} // verus!
