use annil_serverless::credential::{reconcile, Credential, StartupError};
use annil_serverless::record::{decode, encode};
use annil_serverless::store::{CredentialStore, LoadError};

fn cred(token: &str, expiry: u64) -> Credential {
    Credential::new(token.to_string(), expiry, String::new())
}

#[test]
fn newer_bootstrap_is_adopted_and_persisted() {
    let s = reconcile(Some(cred("persisted", 100)), Some(cred("bootstrap", 200))).unwrap();
    assert_eq!(s.credential.access_token_expiry, 200);
    assert_eq!(s.credential.refresh_token, "bootstrap");
    assert!(s.persist);
}

#[test]
fn newer_persisted_wins_over_bootstrap() {
    let s = reconcile(Some(cred("persisted", 200)), Some(cred("bootstrap", 100))).unwrap();
    assert_eq!(s.credential.access_token_expiry, 200);
    assert_eq!(s.credential.refresh_token, "persisted");
    assert!(!s.persist);
}

#[test]
fn bootstrap_is_adopted_without_persisted_record() {
    let s = reconcile(None, Some(cred("bootstrap", 100))).unwrap();
    assert_eq!(s.credential.refresh_token, "bootstrap");
    assert_eq!(s.credential.access_token_expiry, 100);
    assert!(s.persist);
}

#[test]
fn tie_keeps_persisted() {
    let s = reconcile(Some(cred("persisted", 150)), Some(cred("bootstrap", 150))).unwrap();
    assert_eq!(s.credential.refresh_token, "persisted");
    assert!(!s.persist);
}

#[test]
fn persisted_kept_without_bootstrap() {
    let s = reconcile(Some(cred("persisted", 5)), None).unwrap();
    assert_eq!(s.credential.refresh_token, "persisted");
    assert!(!s.persist);
}

#[test]
fn empty_refresh_token_counts_as_absent() {
    let s = reconcile(Some(cred("", 900)), Some(cred("bootstrap", 100))).unwrap();
    assert_eq!(s.credential.refresh_token, "bootstrap");
    assert!(s.persist);
    let s = reconcile(Some(cred("persisted", 100)), Some(cred("", 900))).unwrap();
    assert_eq!(s.credential.refresh_token, "persisted");
    assert!(!s.persist);
}

#[test]
fn no_credential_at_all() {
    assert_eq!(reconcile(None, None).unwrap_err(), StartupError::NoCredential);
    assert_eq!(
        reconcile(Some(cred("", 1)), Some(cred("", 2))).unwrap_err(),
        StartupError::NoCredential
    );
}

#[test]
fn validity_and_expiry() {
    assert!(cred("x", 10).is_valid());
    assert!(!cred("", 10).is_valid());
    assert!(!cred("x", 10).is_expired(9));
    assert!(cred("x", 10).is_expired(10));
    assert!(cred("x", 10).is_expired(11));
}

#[test]
fn same_as_compares_every_field() {
    let a = Credential::new("t".to_string(), 1, "f".to_string());
    assert!(a.same_as(&a.duplicate()));
    assert!(!a.same_as(&Credential::new("t".to_string(), 2, "f".to_string())));
    assert!(!a.same_as(&Credential::new("u".to_string(), 1, "f".to_string())));
    assert!(!a.same_as(&Credential::new("t".to_string(), 1, "g".to_string())));
}

#[test]
fn record_layout_is_exact() {
    let c = Credential::new("ab".to_string(), 0x0102, "z".to_string());
    let bytes = encode(&c);
    let mut expected = vec![0x02, 0x01, 0, 0, 0, 0, 0, 0];
    expected.extend_from_slice(&[2, 0, 0, 0, 0, 0, 0, 0]);
    expected.extend_from_slice(b"ab");
    expected.extend_from_slice(&[1, 0, 0, 0, 0, 0, 0, 0]);
    expected.extend_from_slice(b"z");
    assert_eq!(bytes, expected);
}

#[test]
fn record_round_trips_non_ascii_text() {
    let c = Credential::new("jeton-é-字".to_string(), u64::MAX, "empreinte-🎵".to_string());
    let back = decode(&encode(&c)).unwrap();
    assert!(back.same_as(&c));
    assert_eq!(back.refresh_token, "jeton-é-字");
    assert_eq!(back.fingerprint_of_prior_refresh_token, "empreinte-🎵");
}

#[test]
fn decode_rejects_what_is_no_record() {
    assert!(decode(&[]).is_none());
    assert!(decode(&[0; 15]).is_none());
    let good = encode(&cred("abc", 3));
    assert!(decode(&good).is_some());
    assert!(decode(&good[..good.len() - 1]).is_none());
    let mut longer = good.clone();
    longer.push(0);
    assert!(decode(&longer).is_none());
    let mut bad_utf8 = good.clone();
    bad_utf8[16] = 0xff;
    assert!(decode(&bad_utf8).is_none());
    let mut bad_len = good.clone();
    bad_len[8] = 200;
    assert!(decode(&bad_len).is_none());
}

#[test]
fn save_then_load_gives_the_credential_back() {
    let mut store = CredentialStore::new();
    let c = Credential::new("refresh".to_string(), 4242, "previous".to_string());
    store.save(&c).unwrap();
    let back = store.load().unwrap();
    assert!(back.same_as(&c));
    let d = cred("other", 7);
    store.save(&d).unwrap();
    assert!(store.load().unwrap().same_as(&d));
}

#[test]
fn store_survives_through_its_bytes() {
    let mut store = CredentialStore::new();
    let c = cred("kept", 99);
    store.save(&c).unwrap();
    let bytes = store.record().unwrap().clone();
    let reopened = CredentialStore::from_record(bytes);
    assert!(reopened.load().unwrap().same_as(&c));
}

#[test]
fn load_errors() {
    assert_eq!(CredentialStore::new().load().unwrap_err(), LoadError::NotFound);
    assert!(CredentialStore::new().record().is_none());
    let broken = CredentialStore::from_record(vec![1, 2, 3]);
    assert_eq!(broken.load().unwrap_err(), LoadError::Corrupt);
}

#[test]
fn renewed_takes_rotated_token_and_new_expiry() {
    let old = cred("old-token", 100);
    let r = old.renewed(Some("new-token".to_string()), 3600, 1000, "fp".to_string());
    assert_eq!(r.refresh_token, "new-token");
    assert_eq!(r.access_token_expiry, 4600);
    assert_eq!(r.fingerprint_of_prior_refresh_token, "fp");
}

#[test]
fn renewed_keeps_token_when_none_returned() {
    let old = cred("old-token", 100);
    let r = old.renewed(None, 60, 1000, String::new());
    assert_eq!(r.refresh_token, "old-token");
    assert_eq!(r.access_token_expiry, 1060);
    let r = old.renewed(Some(String::new()), 60, 1000, String::new());
    assert_eq!(r.refresh_token, "old-token");
}

#[test]
fn renewed_expiry_saturates() {
    let r = cred("t", 0).renewed(None, u64::MAX, 5, String::new());
    assert_eq!(r.access_token_expiry, u64::MAX);
}
