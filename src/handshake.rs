//! The handshake state machine: key exchange, then identity exchange, then
//! the initialized channel. Transitions only go forward; any protocol
//! violation aborts.
use vstd::prelude::*;
use crate::error::ChannelError;
use crate::helper::{decrypted_as, DecryptionHelper, EncryptionHelper, KeyId};

verus! {

/// The stable, comparable handle of an identity.
#[derive(Debug, PartialEq, Eq)]
pub struct IdentityIdentifier {
    pub id: String,
}

impl IdentityIdentifier {
    pub fn new(id: String) -> (r: Self)
        ensures
            r.id == id,
    {
        IdentityIdentifier { id }
    }

    /// A copy of this identifier.
    pub fn copy(&self) -> (r: Self)
        ensures
            r == *self,
    {
        IdentityIdentifier { id: self.id.clone() }
    }
}

/// The phases of a handshake, each with what it owns.
pub enum HandshakeState {
    /// The pluggable key exchange is running; no symmetric key exists yet.
    KeyExchange { initiator: bool },
    /// Both keys are derived; identities are being exchanged and checked
    /// against the transcript hash.
    ExchangeIdentity {
        initiator: bool,
        encryption_helper: EncryptionHelper,
        decryption_helper: DecryptionHelper,
        auth_hash: [u8; 32],
        identity_sent: bool,
        received_identity_id: Option<IdentityIdentifier>,
    },
    /// The handshake is complete. The encryption helper has been handed to
    /// the encryptor.
    Initialized { decryption_helper: DecryptionHelper, their_identity_id: IdentityIdentifier },
}

/// What happens to a handshake.
pub enum HandshakeEvent {
    /// The key exchange finished with a key per direction and the transcript
    /// hash.
    KeysDerived { encrypt_key: KeyId, decrypt_key: KeyId, auth_hash: [u8; 32] },
    /// The local identity and its proof have been sent to the peer.
    IdentitySent,
    /// The peer's identity arrived; `trusted` is the trust policy's verdict
    /// on it and on its proof over the transcript hash.
    IdentityReceived { identity_id: IdentityIdentifier, trusted: bool },
    /// The handshake deadline has passed.
    DeadlinePassed,
}

/// The outcome of one accepted event.
pub struct Transition {
    pub state: HandshakeState,
    /// The local identity must now be sent to the peer.
    pub send_identity: bool,
    /// The outbound helper, handed over once the channel is initialized.
    pub encryptor: Option<EncryptionHelper>,
}

/// The position of a phase in the order the handshake goes through them.
pub open spec fn phase(s: HandshakeState) -> nat {
    match s {
        HandshakeState::KeyExchange { .. } => 0,
        HandshakeState::ExchangeIdentity { .. } => 1,
        HandshakeState::Initialized { .. } => 2,
    }
}

/// Whether `t` is what the exchange phase becomes once both identities have
/// been sent and the peer's identity `id` accepted.
pub open spec fn initialized_from(
    t: Transition,
    enc: EncryptionHelper,
    dec: DecryptionHelper,
    id: IdentityIdentifier,
) -> bool {
    &&& t.state == (HandshakeState::Initialized { decryption_helper: dec, their_identity_id: id })
    &&& t.encryptor == Some(enc)
}

/// The result of `step` on state `s` and event `e`.
pub open spec fn step_spec(
    s: HandshakeState,
    e: HandshakeEvent,
    r: Result<Transition, ChannelError>,
) -> bool {
    match s {
        HandshakeState::KeyExchange { initiator } => match e {
            HandshakeEvent::KeysDerived { encrypt_key, decrypt_key, auth_hash } => {
                &&& r is Ok
                &&& r->Ok_0.send_identity == initiator
                &&& r->Ok_0.encryptor is None
                &&& match r->Ok_0.state {
                    HandshakeState::ExchangeIdentity {
                        initiator: i,
                        encryption_helper,
                        decryption_helper,
                        auth_hash: h,
                        identity_sent,
                        received_identity_id,
                    } => {
                        &&& i == initiator
                        &&& encryption_helper.key_spec() == encrypt_key@
                        &&& encryption_helper.nonce_spec() == 0
                        &&& decryption_helper.key_spec() == decrypt_key@
                        &&& h == auth_hash
                        &&& !identity_sent
                        &&& received_identity_id is None
                    },
                    _ => false,
                }
            },
            HandshakeEvent::DeadlinePassed => r == Err::<Transition, ChannelError>(
                ChannelError::HandshakeTimeout,
            ),
            _ => r == Err::<Transition, ChannelError>(ChannelError::UnexpectedMessage),
        },
        HandshakeState::ExchangeIdentity {
            initiator,
            encryption_helper: enc,
            decryption_helper: dec,
            auth_hash,
            identity_sent,
            received_identity_id,
        } => match e {
            HandshakeEvent::IdentitySent => if identity_sent {
                r == Err::<Transition, ChannelError>(ChannelError::UnexpectedMessage)
            } else {
                &&& r is Ok
                &&& !r->Ok_0.send_identity
                &&& match received_identity_id {
                    Some(id) => initialized_from(r->Ok_0, enc, dec, id),
                    None => {
                        &&& r->Ok_0.encryptor is None
                        &&& r->Ok_0.state == (HandshakeState::ExchangeIdentity {
                            initiator,
                            encryption_helper: enc,
                            decryption_helper: dec,
                            auth_hash,
                            identity_sent: true,
                            received_identity_id: None,
                        })
                    },
                }
            },
            HandshakeEvent::IdentityReceived { identity_id, trusted } => if received_identity_id
                is Some {
                r == Err::<Transition, ChannelError>(ChannelError::UnexpectedMessage)
            } else if !trusted {
                r == Err::<Transition, ChannelError>(ChannelError::TrustPolicyRejected)
            } else if identity_sent {
                &&& r is Ok
                &&& !r->Ok_0.send_identity
                &&& initialized_from(r->Ok_0, enc, dec, identity_id)
            } else {
                &&& r is Ok
                &&& r->Ok_0.send_identity
                &&& r->Ok_0.encryptor is None
                &&& r->Ok_0.state == (HandshakeState::ExchangeIdentity {
                    initiator,
                    encryption_helper: enc,
                    decryption_helper: dec,
                    auth_hash,
                    identity_sent: false,
                    received_identity_id: Some(identity_id),
                })
            },
            HandshakeEvent::DeadlinePassed => r == Err::<Transition, ChannelError>(
                ChannelError::HandshakeTimeout,
            ),
            HandshakeEvent::KeysDerived { .. } => r == Err::<Transition, ChannelError>(
                ChannelError::UnexpectedMessage,
            ),
        },
        HandshakeState::Initialized { decryption_helper, their_identity_id } => match e {
            HandshakeEvent::DeadlinePassed => {
                &&& r is Ok
                &&& r->Ok_0.state == s
                &&& !r->Ok_0.send_identity
                &&& r->Ok_0.encryptor is None
            },
            _ => r == Err::<Transition, ChannelError>(ChannelError::UnexpectedMessage),
        },
    }
}

/// An identity that the trust policy refuses never moves a handshake on: in
/// every phase the event is refused, so the channel is not initialized.
pub proof fn lemma_rejected_identity_aborts(
    s: HandshakeState,
    identity_id: IdentityIdentifier,
    r: Result<Transition, ChannelError>,
)
    requires
        step_spec(s, HandshakeEvent::IdentityReceived { identity_id, trusted: false }, r),
    ensures
        r is Err,
{
}

/// A handshake becomes initialized only with an identity it has accepted:
/// the peer identifier of the new state is the one the trust policy just
/// accepted, or the one it accepted earlier once the local identity has
/// gone out; and the encryption helper of the exchange is what is handed to
/// the encryptor.
pub proof fn lemma_initialized_with_accepted_identity(
    s: HandshakeState,
    e: HandshakeEvent,
    r: Result<Transition, ChannelError>,
)
    requires
        step_spec(s, e, r),
        r is Ok,
        phase(s) < 2,
        phase(r->Ok_0.state) == 2,
    ensures
        s is ExchangeIdentity,
        r->Ok_0.encryptor == Some(s->ExchangeIdentity_encryption_helper),
        match r->Ok_0.state {
            HandshakeState::Initialized { their_identity_id, decryption_helper } => {
                &&& decryption_helper == s->ExchangeIdentity_decryption_helper
                &&& match e {
                    HandshakeEvent::IdentityReceived { identity_id, trusted } => trusted
                        && their_identity_id == identity_id,
                    HandshakeEvent::IdentitySent => s->ExchangeIdentity_received_identity_id
                        == Some(their_identity_id),
                    _ => false,
                }
            },
            _ => false,
        },
{
}

/// A handshake between a compliant initiator A (identifier `a`) and
/// responder B (identifier `b`) whose trust policies accept: both sides end
/// initialized, each with the other's identifier, and each hands its
/// encryptor a helper for its own outbound key starting at counter zero.
/// B answers A's identity with its own.
pub proof fn lemma_two_party_handshake(
    a_out: KeyId,
    b_out: KeyId,
    auth_hash: [u8; 32],
    a: IdentityIdentifier,
    b: IdentityIdentifier,
    ra1: Result<Transition, ChannelError>,
    rb1: Result<Transition, ChannelError>,
    ra2: Result<Transition, ChannelError>,
    rb2: Result<Transition, ChannelError>,
    rb3: Result<Transition, ChannelError>,
    ra3: Result<Transition, ChannelError>,
)
    requires
        step_spec(
            HandshakeState::KeyExchange { initiator: true },
            HandshakeEvent::KeysDerived { encrypt_key: a_out, decrypt_key: b_out, auth_hash },
            ra1,
        ),
        step_spec(
            HandshakeState::KeyExchange { initiator: false },
            HandshakeEvent::KeysDerived { encrypt_key: b_out, decrypt_key: a_out, auth_hash },
            rb1,
        ),
        step_spec(ra1->Ok_0.state, HandshakeEvent::IdentitySent, ra2),
        step_spec(
            rb1->Ok_0.state,
            HandshakeEvent::IdentityReceived { identity_id: a, trusted: true },
            rb2,
        ),
        step_spec(rb2->Ok_0.state, HandshakeEvent::IdentitySent, rb3),
        step_spec(
            ra2->Ok_0.state,
            HandshakeEvent::IdentityReceived { identity_id: b, trusted: true },
            ra3,
        ),
    ensures
        ra1 is Ok && ra1->Ok_0.send_identity,
        rb1 is Ok && !rb1->Ok_0.send_identity,
        rb2 is Ok && rb2->Ok_0.send_identity,
        ra3 is Ok && ra3->Ok_0.state is Initialized
            && ra3->Ok_0.state->Initialized_their_identity_id == b,
        rb3 is Ok && rb3->Ok_0.state is Initialized
            && rb3->Ok_0.state->Initialized_their_identity_id == a,
        ra3->Ok_0.encryptor is Some && ra3->Ok_0.encryptor->Some_0.key_spec() == a_out@
            && ra3->Ok_0.encryptor->Some_0.nonce_spec() == 0,
        rb3->Ok_0.encryptor is Some && rb3->Ok_0.encryptor->Some_0.key_spec() == b_out@
            && rb3->Ok_0.encryptor->Some_0.nonce_spec() == 0,
        ra3->Ok_0.state->Initialized_decryption_helper.key_spec() == b_out@,
        rb3->Ok_0.state->Initialized_decryption_helper.key_spec() == a_out@,
{
}

/// A handshake whose responder refuses the initiator's identity: the
/// responder aborts, the initiator has not been initialized when its
/// deadline passes, and then fails with `HandshakeTimeout`.
pub proof fn lemma_rejected_handshake(
    a_out: KeyId,
    b_out: KeyId,
    auth_hash: [u8; 32],
    a: IdentityIdentifier,
    ra1: Result<Transition, ChannelError>,
    rb1: Result<Transition, ChannelError>,
    ra2: Result<Transition, ChannelError>,
    rb2: Result<Transition, ChannelError>,
    ra3: Result<Transition, ChannelError>,
)
    requires
        step_spec(
            HandshakeState::KeyExchange { initiator: true },
            HandshakeEvent::KeysDerived { encrypt_key: a_out, decrypt_key: b_out, auth_hash },
            ra1,
        ),
        step_spec(
            HandshakeState::KeyExchange { initiator: false },
            HandshakeEvent::KeysDerived { encrypt_key: b_out, decrypt_key: a_out, auth_hash },
            rb1,
        ),
        step_spec(ra1->Ok_0.state, HandshakeEvent::IdentitySent, ra2),
        step_spec(
            rb1->Ok_0.state,
            HandshakeEvent::IdentityReceived { identity_id: a, trusted: false },
            rb2,
        ),
        step_spec(ra2->Ok_0.state, HandshakeEvent::DeadlinePassed, ra3),
    ensures
        rb2 == Err::<Transition, ChannelError>(ChannelError::TrustPolicyRejected),
        ra2 is Ok && ra2->Ok_0.state is ExchangeIdentity && ra2->Ok_0.encryptor is None,
        ra3 == Err::<Transition, ChannelError>(ChannelError::HandshakeTimeout),
{
}

impl HandshakeState {
    /// The state in which a handshake starts.
    pub fn new(initiator: bool) -> (r: Self)
        ensures
            r == (HandshakeState::KeyExchange { initiator }),
    {
        HandshakeState::KeyExchange { initiator }
    }

    /// Whether the handshake is complete.
    pub fn is_initialized(&self) -> (r: bool)
        ensures
            r == (phase(*self) == 2),
    {
        match self {
            HandshakeState::Initialized { .. } => true,
            _ => false,
        }
    }

    /// The peer's identifier, once the handshake is complete.
    pub fn their_identity_id(&self) -> (r: Option<&IdentityIdentifier>)
        ensures
            match *self {
                HandshakeState::Initialized { their_identity_id, .. } => r == Some(
                    &their_identity_id,
                ),
                _ => r is None,
            },
    {
        match self {
            HandshakeState::Initialized { their_identity_id, .. } => Some(their_identity_id),
            _ => None,
        }
    }

    /// Decrypts an inbound data message with `open`, the vault's AEAD
    /// decryption, as the channel's decryption helper does. Before the
    /// handshake is complete no data is accepted: `UnexpectedMessage`, and
    /// nothing is called.
    pub fn decrypt_inbound<F>(&self, payload: &[u8], open: F) -> (r: Result<Vec<u8>, ChannelError>)
        where
            F: FnOnce(&String, &[u8], [u8; 12]) -> Result<Vec<u8>, ChannelError>,
        requires
            forall|k: &String, c: &[u8], n: [u8; 12]| #[trigger] open.requires((k, c, n)),
        ensures
            match *self {
                HandshakeState::Initialized { decryption_helper, .. } => decrypted_as(
                    decryption_helper.key_spec(),
                    payload@,
                    open,
                    r,
                ),
                _ => r == Err::<Vec<u8>, ChannelError>(ChannelError::UnexpectedMessage),
            },
    {
        match self {
            HandshakeState::Initialized { decryption_helper, .. } => decryption_helper.decrypt(
                payload,
                open,
            ),
            _ => Err(ChannelError::UnexpectedMessage),
        }
    }

    /// Feeds one event to the handshake.
    ///
    /// The initiator sends its identity as soon as the keys are derived; the
    /// responder once it has accepted the initiator's. The channel is
    /// initialized when the local identity has been sent and the peer's has
    /// been accepted; the encryption helper then leaves the state machine. A
    /// rejected identity, an event out of phase and a passed deadline abort.
    pub fn step(self, event: HandshakeEvent) -> (r: Result<Transition, ChannelError>)
        ensures
            step_spec(self, event, r),
            r is Ok ==> phase(r->Ok_0.state) >= phase(self),
    {
        match self {
            HandshakeState::KeyExchange { initiator } => match event {
                HandshakeEvent::KeysDerived { encrypt_key, decrypt_key, auth_hash } => {
                    let state = HandshakeState::ExchangeIdentity {
                        initiator,
                        encryption_helper: EncryptionHelper::new(encrypt_key, 0),
                        decryption_helper: DecryptionHelper::new(decrypt_key),
                        auth_hash,
                        identity_sent: false,
                        received_identity_id: None,
                    };
                    Ok(Transition { state, send_identity: initiator, encryptor: None })
                },
                HandshakeEvent::DeadlinePassed => Err(ChannelError::HandshakeTimeout),
                _ => Err(ChannelError::UnexpectedMessage),
            },
            HandshakeState::ExchangeIdentity {
                initiator,
                encryption_helper,
                decryption_helper,
                auth_hash,
                identity_sent,
                received_identity_id,
            } => match event {
                HandshakeEvent::IdentitySent => {
                    if identity_sent {
                        return Err(ChannelError::UnexpectedMessage);
                    }
                    match received_identity_id {
                        Some(id) => Ok(
                            Transition {
                                state: HandshakeState::Initialized {
                                    decryption_helper,
                                    their_identity_id: id,
                                },
                                send_identity: false,
                                encryptor: Some(encryption_helper),
                            },
                        ),
                        None => Ok(
                            Transition {
                                state: HandshakeState::ExchangeIdentity {
                                    initiator,
                                    encryption_helper,
                                    decryption_helper,
                                    auth_hash,
                                    identity_sent: true,
                                    received_identity_id: None,
                                },
                                send_identity: false,
                                encryptor: None,
                            },
                        ),
                    }
                },
                HandshakeEvent::IdentityReceived { identity_id, trusted } => {
                    if received_identity_id.is_some() {
                        return Err(ChannelError::UnexpectedMessage);
                    }
                    if !trusted {
                        return Err(ChannelError::TrustPolicyRejected);
                    }
                    if identity_sent {
                        Ok(
                            Transition {
                                state: HandshakeState::Initialized {
                                    decryption_helper,
                                    their_identity_id: identity_id,
                                },
                                send_identity: false,
                                encryptor: Some(encryption_helper),
                            },
                        )
                    } else {
                        Ok(
                            Transition {
                                state: HandshakeState::ExchangeIdentity {
                                    initiator,
                                    encryption_helper,
                                    decryption_helper,
                                    auth_hash,
                                    identity_sent: false,
                                    received_identity_id: Some(identity_id),
                                },
                                send_identity: true,
                                encryptor: None,
                            },
                        )
                    }
                },
                HandshakeEvent::DeadlinePassed => Err(ChannelError::HandshakeTimeout),
                HandshakeEvent::KeysDerived { .. } => Err(ChannelError::UnexpectedMessage),
            },
            HandshakeState::Initialized { decryption_helper, their_identity_id } => match event {
                HandshakeEvent::DeadlinePassed => Ok(
                    Transition {
                        state: HandshakeState::Initialized { decryption_helper, their_identity_id },
                        send_identity: false,
                        encryptor: None,
                    },
                ),
                _ => Err(ChannelError::UnexpectedMessage),
            },
        }
    }
}

} // verus!
