use secure_channel::commands::{
    enroll_outcome, AuthCommand, CommandError, DeleteCommand, Enrollment, Status,
};
use secure_channel::vault::{Secret, SoftwareVault, VaultEntry, VaultError};

#[test]
fn auth_command_requests_okta_enrollment() {
    let r = AuthCommand::new("project.json".to_string(), "/dnsaddr/cloud".to_string()).run();
    assert_eq!(r.path, "v0/enroll/okta");
    assert_eq!(r.project, "project.json");
    assert_eq!(r.cloud_route, "/dnsaddr/cloud");
}

#[test]
fn enroll_outcome_by_status() {
    assert_eq!(enroll_outcome(Some(Status::Success)), Ok(Enrollment::Enrolled));
    assert_eq!(enroll_outcome(Some(Status::BadRequest)), Ok(Enrollment::AlreadyEnrolled));
    assert_eq!(enroll_outcome(Some(Status::Unauthorized)), Err(CommandError::FailedToEnroll));
    assert_eq!(enroll_outcome(Some(Status::InternalServerError)), Err(CommandError::FailedToEnroll));
    assert_eq!(enroll_outcome(None), Err(CommandError::FailedToEnroll));
}

#[test]
fn delete_command_needs_confirmation() {
    let c = DeleteCommand::new(None, "127.0.0.1:4000".to_string(), false);
    assert!(c.run(false).is_none());
    let c = DeleteCommand::new(Some("n1".to_string()), "127.0.0.1:4000".to_string(), false);
    let r = c.run(true).unwrap();
    assert_eq!(r.path, "/node/tcp/connection");
    assert_eq!(r.at_node, Some("n1".to_string()));
    assert_eq!(r.address, "127.0.0.1:4000");
    let c = DeleteCommand::new(None, "tcp_conn_1".to_string(), true);
    let r = c.run(false).unwrap();
    assert_eq!(r.address, "tcp_conn_1");
    assert_eq!(r.at_node, None);
}

fn vault() -> SoftwareVault {
    SoftwareVault {
        entries: vec![
            VaultEntry { index: 1, key_id: None },
            VaultEntry { index: 2, key_id: Some("aa".to_string()) },
            VaultEntry { index: 3, key_id: Some("bb".to_string()) },
            VaultEntry { index: 4, key_id: Some("bb".to_string()) },
        ],
    }
}

#[test]
fn secret_found_by_key_id() {
    let v = vault();
    assert_eq!(v.get_secret_by_key_id("aa"), Ok(Secret::new(2)));
    assert_eq!(v.get_secret_by_key_id("bb"), Ok(Secret::new(3)));
}

#[test]
fn secret_missing_for_unknown_key_id() {
    assert_eq!(vault().get_secret_by_key_id("cc"), Err(VaultError::SecretNotFound));
    assert_eq!(vault().get_secret_by_key_id(""), Err(VaultError::SecretNotFound));
    let empty = SoftwareVault { entries: vec![] };
    assert_eq!(empty.get_secret_by_key_id("aa"), Err(VaultError::SecretNotFound));
}

#[test]
fn key_id_is_hex_of_digest() {
    let mut d = [0u8; 32];
    d[0] = 0xab;
    d[1] = 0x01;
    d[31] = 0xf0;
    let id = secure_channel::vault::key_id_of_digest(&d);
    assert_eq!(id.len(), 64);
    assert!(id.starts_with("ab01"));
    assert!(id.ends_with("f0"));
}

#[test]
fn key_id_of_public_key_is_sha256_hex() {
    let v = SoftwareVault { entries: vec![] };
    assert_eq!(
        v.compute_key_id_for_public_key(b"abc"),
        Ok("ba7816bf8f01cfea414140de5dae2223b00361a396177a9cb410ff61f20015ad".to_string())
    );
    assert_eq!(
        v.compute_key_id_for_public_key(b""),
        Ok("e3b0c44298fc1c149afbf4c8996fb92427ae41e4649b934ca495991b7852b855".to_string())
    );
}
