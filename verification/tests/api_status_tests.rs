use dust_orbit::api::{
    jwt_secret_or_default, refresh_cookie, refresh_cookie_name_text, removal_cookie,
    sender_or_default, ApiError,
};
use dust_orbit::status::status_report;

#[test]
fn error_replies() {
    let cases = [
        (ApiError::Database("e1".to_string()), 500, "e1"),
        (ApiError::InvalidOtp, 401, "Invalid OTP"),
        (ApiError::OtpExpired, 401, "OTP has expired"),
        (ApiError::MailNotBuilt("bad".to_string()), 500, "Failed to build email: bad"),
        (ApiError::MailNotSent, 500, "Failed to send email. Please try again later."),
        (ApiError::TokenNotSigned("k".to_string()), 500, "JWT Error: k"),
        (ApiError::NoRefreshToken, 401, "No refresh token found"),
        (ApiError::InvalidRefreshToken, 401, "Invalid or expired refresh token"),
    ];
    for (e, status, message) in cases {
        let r = e.reply();
        assert_eq!(r.status, status);
        assert_eq!(r.message, message);
    }
}

#[test]
fn configuration_defaults() {
    assert_eq!(jwt_secret_or_default(None), "super_secret_fallback");
    assert_eq!(jwt_secret_or_default(Some("s".to_string())), "s");
    assert_eq!(sender_or_default(None), "dustandorbit@allanbrunner.dev");
    assert_eq!(sender_or_default(Some("x@y.z".to_string())), "x@y.z");
}

#[test]
fn cookies() {
    assert_eq!(refresh_cookie_name_text(), "refresh_token");
    let c = refresh_cookie("abc".to_string());
    assert_eq!((c.name.as_str(), c.value.as_str(), c.path.as_str()), ("refresh_token", "abc", "/auth"));
    assert!(c.http_only && c.secure && c.same_site_strict);
    assert_eq!(c.max_age_secs, Some(30 * 24 * 3600));
    let r = removal_cookie();
    assert_eq!((r.name.as_str(), r.value.as_str(), r.path.as_str()), ("refresh_token", "", "/auth"));
}

#[test]
fn status_report_from_probes() {
    let r = status_report(Some(1), Some(Some(12)), Some(3));
    assert_eq!(r.status, "online");
    assert!(r.postgres_connected);
    assert_eq!(r.postgres_market_listings, 12);
    assert_eq!(r.mongo_collections_found, 3);
    assert_eq!(r.message, "Backend is locked and loaded!");
    assert_eq!(r.player_xp, 4500);
    assert_eq!(r.verified_level, 7);
    let r = status_report(None, None, None);
    assert!(!r.postgres_connected);
    assert_eq!(r.postgres_market_listings, 0);
    assert_eq!(r.mongo_collections_found, 0);
    let r = status_report(Some(0), Some(None), Some(0));
    assert!(!r.postgres_connected);
    assert_eq!(r.postgres_market_listings, 0);
}
