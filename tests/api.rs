use secure_channel::channel::{deadline_passed, ChannelAction, Identity, DEFAULT_HANDSHAKE_TIMEOUT_MS};
use secure_channel::error::ChannelError;
use secure_channel::handshake::{HandshakeEvent, HandshakeState, IdentityIdentifier};
use secure_channel::helper::EncryptionHelper;
use secure_channel::transport::Address;

fn me() -> Identity {
    Identity::new(IdentityIdentifier::new("I8a3c51".to_string()))
}

fn route() -> Vec<Address> {
    vec![Address::new(1, "127.0.0.1:4000".to_string()), Address::new(0, "listener".to_string())]
}

#[test]
fn create_channel_uses_two_minute_timeout() {
    assert_eq!(DEFAULT_HANDSHAKE_TIMEOUT_MS, 120_000);
    match me().create_secure_channel(&route()) {
        ChannelAction::StartInitiator { route: r, timeout_ms, state, identity } => {
            assert_eq!(r, route());
            assert_eq!(timeout_ms, 120_000);
            assert!(matches!(state, HandshakeState::KeyExchange { initiator: true }));
            assert_eq!(identity.id, "I8a3c51");
        }
        _ => panic!("not an initiator"),
    }
}

#[test]
fn create_channel_extended_keeps_timeout() {
    match me().create_secure_channel_extended(&route(), 5_000) {
        ChannelAction::StartInitiator { timeout_ms, .. } => assert_eq!(timeout_ms, 5_000),
        _ => panic!("not an initiator"),
    }
}

#[test]
fn listener_and_responder() {
    match me().create_secure_channel_listener(Address::new(0, "listener".to_string())) {
        ChannelAction::StartListener { address, identity } => {
            assert_eq!(address, Address::new(0, "listener".to_string()));
            assert_eq!(identity, IdentityIdentifier::new("I8a3c51".to_string()));
        }
        _ => panic!("not a listener"),
    }
    match me().accept_secure_channel() {
        ChannelAction::StartResponder { state, identity } => {
            assert!(matches!(state, HandshakeState::KeyExchange { initiator: false }));
            assert_eq!(identity.id, "I8a3c51");
        }
        _ => panic!("not a responder"),
    }
}

#[test]
fn stop_channel_stops_its_worker() {
    let a = Address::new(0, "enc_1".to_string());
    match me().stop_secure_channel(&a) {
        ChannelAction::StopWorker { address } => assert_eq!(address, a),
        _ => panic!("not a stop"),
    }
}

#[test]
fn deadline_checks() {
    assert!(!deadline_passed(1_000, 1_000, 120_000));
    assert!(!deadline_passed(1_000, 120_999, 120_000));
    assert!(deadline_passed(1_000, 121_000, 120_000));
    assert!(deadline_passed(0, u64::MAX, 120_000));
    assert!(!deadline_passed(5_000, 1_000, 0));
    assert!(deadline_passed(5_000, 5_000, 0));
}

#[test]
fn inbound_data_only_after_handshake() {
    let s = HandshakeState::new(true);
    let r = s.decrypt_inbound(&[0; 16], |_: &String, _: &[u8], _: [u8; 12]| Ok(vec![1]));
    assert_eq!(r, Err(ChannelError::UnexpectedMessage));

    let s = s
        .step(HandshakeEvent::KeysDerived {
            encrypt_key: "out".to_string(),
            decrypt_key: "in".to_string(),
            auth_hash: [0; 32],
        })
        .ok()
        .unwrap()
        .state;
    let r = s.decrypt_inbound(&[0; 16], |_: &String, _: &[u8], _: [u8; 12]| Ok(vec![1]));
    assert_eq!(r, Err(ChannelError::UnexpectedMessage));
    let s = s.step(HandshakeEvent::IdentitySent).ok().unwrap().state;
    let s = s
        .step(HandshakeEvent::IdentityReceived {
            identity_id: IdentityIdentifier::new("B".to_string()),
            trusted: true,
        })
        .ok()
        .unwrap()
        .state;

    let mut peer = EncryptionHelper::new("in".to_string(), 41);
    let framed = peer
        .encrypt(b"data", |_: &String, p: &[u8], _: [u8; 12]| Ok(p.iter().rev().cloned().collect()))
        .unwrap();
    let r = s.decrypt_inbound(&framed, |k: &String, c: &[u8], n: [u8; 12]| {
        assert_eq!(k, "in");
        assert_eq!(n[11], 41);
        Ok(c.iter().rev().cloned().collect())
    });
    assert_eq!(r, Ok(b"data".to_vec()));
    let r = s.decrypt_inbound(&[1, 2, 3], |_: &String, _: &[u8], _: [u8; 12]| Ok(vec![]));
    assert_eq!(r, Err(ChannelError::InvalidNonce));
}
