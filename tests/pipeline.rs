use influx_receiver::error::AuthenticateError;
use influx_receiver::nonce_cache::{ExpiringNonceCache, RotationPolicy};
use influx_receiver::pipeline::{precheck, update_authenticator, Auth};
use influx_receiver::signature::{sign, SecretKey};
use influx_receiver::timing::{FutureExpiryPolicy, TimeSpan};

const MESSAGE: &str = r#"{"nonce":1,"expires":1000,"payload":{"time":1,"duration":2,"gateway":false,"method":"GET","uri":"/","name":"probe","id":3,"tcpip":{"src":"127.0.0.1","dst":"10.0.0.2","sport":1234,"dport":80}}}"#;

fn key() -> SecretKey {
    SecretKey::from_slice(b"0123456789abcdef0123456789abcdef").unwrap()
}

fn auth() -> Auth {
    let cache = ExpiringNonceCache::new(TimeSpan::from_secs(60), TimeSpan::from_secs(0), RotationPolicy::GapSinceLastCall);
    Auth::new(key(), cache, FutureExpiryPolicy::FoldIntoExpired)
}

fn corrupt(sig: &str) -> String {
    let mut c: Vec<char> = sig.chars().collect();
    c[0] = if c[0] == 'A' { 'B' } else { 'A' };
    c.into_iter().collect()
}

#[test]
fn accepts_then_refuses_a_resubmission() {
    let mut a = auth();
    let sig = sign(&key(), MESSAGE.as_bytes());
    let now = TimeSpan::from_secs(999);
    let m = a.authenticate(MESSAGE, &sig, now).unwrap();
    assert_eq!(m.name, "probe");
    assert_eq!(m.id, 3);
    assert!(matches!(a.authenticate(MESSAGE, &sig, now), Err(AuthenticateError::NonceReuse)));
}

#[test]
fn corrupted_signature_does_not_consume_the_nonce() {
    let mut a = auth();
    let sig = sign(&key(), MESSAGE.as_bytes());
    let now = TimeSpan::from_secs(999);
    assert!(matches!(a.authenticate(MESSAGE, &corrupt(&sig), now), Err(AuthenticateError::InvalidSignature)));
    assert!(!a.nonces.contains(1));
    assert!(a.authenticate(MESSAGE, &sig, now).is_ok());
}

#[test]
fn stale_message_is_refused_before_the_replay_check() {
    let mut a = auth();
    let sig = sign(&key(), MESSAGE.as_bytes());
    assert!(matches!(a.authenticate(MESSAGE, &sig, TimeSpan::from_secs(1001)), Err(AuthenticateError::Expired)));
    assert!(matches!(a.authenticate(MESSAGE, &sig, TimeSpan::from_secs(900)), Err(AuthenticateError::Expired)));
    assert_eq!(a.nonces.total_len(), 0);
}

#[test]
fn signature_is_checked_before_the_message_is_decoded() {
    let mut a = auth();
    assert!(matches!(a.authenticate("not json", "AAAA", TimeSpan::from_secs(1)), Err(AuthenticateError::SignatureFormattingError)));
    let sig = sign(&key(), b"not json");
    assert!(matches!(a.authenticate("not json", &sig, TimeSpan::from_secs(1)), Err(AuthenticateError::InvalidMessage)));
}

#[test]
fn precheck_returns_the_envelope_without_touching_a_cache() {
    let sig = sign(&key(), MESSAGE.as_bytes());
    let m = precheck(&key(), MESSAGE, &sig, TimeSpan::from_secs(999), TimeSpan::from_secs(60), FutureExpiryPolicy::FoldIntoExpired).unwrap();
    assert_eq!(m.nonce, 1);
    assert_eq!(m.expires, TimeSpan::from_secs(1000));
}

#[test]
fn update_authenticator_records_accepted_nonces() {
    let mut cache = ExpiringNonceCache::new(TimeSpan::from_secs(60), TimeSpan::from_secs(0), RotationPolicy::FixedCadence);
    let sig = sign(&key(), MESSAGE.as_bytes());
    let now = TimeSpan::from_secs(999);
    assert!(update_authenticator(MESSAGE, &sig, &key(), &mut cache, now, FutureExpiryPolicy::FoldIntoExpired).is_ok());
    assert!(cache.contains(1));
    assert!(matches!(update_authenticator(MESSAGE, &sig, &key(), &mut cache, now, FutureExpiryPolicy::FoldIntoExpired), Err(AuthenticateError::NonceReuse)));
}
