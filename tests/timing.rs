use influx_receiver::error::AuthenticateError;
use influx_receiver::timing::{check_freshness, FutureExpiryPolicy, TimeSpan};

fn secs(s: u64) -> TimeSpan {
    TimeSpan::from_secs(s)
}

#[test]
fn freshness_boundaries() {
    let p = FutureExpiryPolicy::FoldIntoExpired;
    let now = secs(1000);
    let w = secs(60);
    assert_eq!(check_freshness(secs(1000), now, w, p), Ok(()));
    assert_eq!(check_freshness(secs(999), now, w, p), Err(AuthenticateError::Expired));
    assert_eq!(check_freshness(secs(1060), now, w, p), Ok(()));
    assert_eq!(check_freshness(secs(1061), now, w, p), Err(AuthenticateError::Expired));
}

#[test]
fn freshness_boundaries_in_nanoseconds() {
    let p = FutureExpiryPolicy::FoldIntoExpired;
    let now = TimeSpan { secs: 1000, nanos: 5 };
    let w = secs(60);
    assert_eq!(check_freshness(TimeSpan { secs: 1000, nanos: 4 }, now, w, p), Err(AuthenticateError::Expired));
    assert_eq!(check_freshness(TimeSpan { secs: 1060, nanos: 5 }, now, w, p), Ok(()));
    assert_eq!(check_freshness(TimeSpan { secs: 1060, nanos: 6 }, now, w, p), Err(AuthenticateError::Expired));
}

#[test]
fn long_validity_can_be_reported_apart() {
    let p = FutureExpiryPolicy::ReportLongValidity;
    assert_eq!(check_freshness(secs(2000), secs(1000), secs(60), p), Err(AuthenticateError::LongValidity));
    assert_eq!(check_freshness(secs(10), secs(1000), secs(60), p), Err(AuthenticateError::Expired));
}

#[test]
fn as_nanos_is_exact() {
    assert_eq!(TimeSpan { secs: 3, nanos: 7 }.as_nanos(), 3_000_000_007);
    assert_eq!(TimeSpan { secs: u64::MAX, nanos: 999_999_999 }.as_nanos(), u64::MAX as u128 * 1_000_000_000 + 999_999_999);
}

#[test]
fn error_messages() {
    assert_eq!(AuthenticateError::SignatureFormattingError.message(), "The signature must be base64 encoded.");
    assert_eq!(AuthenticateError::NonceReuse.message(), "This nonce was used before.");
    assert_eq!(influx_receiver::error::HMACKeyError::KeyLengthMismatch.message(), "Provided key has the wrong length.");
    assert_eq!(influx_receiver::error::SodiumOxideError::InitError.message(), "Sodium Oxide failed to initialize.");
}
