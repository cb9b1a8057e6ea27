//! The values that cross the HTTP boundary: requests, responses, errors,
//! token claims and cookies.
use vstd::prelude::*;
use vstd::string::StringExecFns;
use crate::clock::SESSION_COOKIE_MAX_AGE_SECS;

verus! {

pub const STATUS_OK: u16 = 200;

pub const STATUS_UNAUTHORIZED: u16 = 401;

pub const STATUS_INTERNAL_SERVER_ERROR: u16 = 500;

/// Body of a request for a login code.
#[derive(Debug, PartialEq, Eq)]
pub struct OtpRequest {
    pub email: String,
}

/// Body of a login with a code.
#[derive(Debug, PartialEq, Eq)]
pub struct VerifyRequest {
    pub email: String,
    pub code: String,
}

/// Body of a successful login or token refresh.
#[derive(Debug, PartialEq, Eq)]
pub struct AuthResponse {
    pub access_token: String,
    pub username: String,
    pub message: String,
}

/// The claims of an access token: the user's id and the expiry in seconds
/// since the epoch.
#[derive(Debug, PartialEq, Eq)]
pub struct JwtClaims {
    pub sub: String,
    pub exp: u64,
}

/// A cookie to set (or, with [`removal_cookie`], to remove). An attribute set
/// to `false` or `None` is left out of the cookie.
#[derive(Debug, PartialEq, Eq)]
pub struct CookieSpec {
    pub name: String,
    pub value: String,
    pub http_only: bool,
    pub secure: bool,
    pub same_site_strict: bool,
    pub path: String,
    pub max_age_secs: Option<i64>,
}

/// A status line with a plain-text message.
#[derive(Debug, PartialEq, Eq)]
pub struct StatusReply {
    pub status: u16,
    pub message: String,
}

/// Why a request is refused.
#[derive(Debug, PartialEq, Eq)]
pub enum ApiError {
    /// A database operation failed; its error text is passed on.
    Database(String),
    /// No stored code matches the address and code given.
    InvalidOtp,
    /// The matching code has expired.
    OtpExpired,
    /// The e-mail carrying a code could not be built; the builder's error text.
    MailNotBuilt(String),
    /// The e-mail carrying a code could not be sent.
    MailNotSent,
    /// The access token could not be signed; the signer's error text.
    TokenNotSigned(String),
    /// The request carries no refresh cookie.
    NoRefreshToken,
    /// No live session matches the refresh cookie.
    InvalidRefreshToken,
}

/// The HTTP status of an error.
pub open spec fn error_status(e: ApiError) -> u16 {
    match e {
        ApiError::InvalidOtp | ApiError::OtpExpired | ApiError::NoRefreshToken
        | ApiError::InvalidRefreshToken => STATUS_UNAUTHORIZED,
        _ => STATUS_INTERNAL_SERVER_ERROR,
    }
}

/// The message of an error.
pub open spec fn error_message(e: ApiError) -> Seq<char> {
    match e {
        ApiError::Database(detail) => detail@,
        ApiError::InvalidOtp => "Invalid OTP"@,
        ApiError::OtpExpired => "OTP has expired"@,
        ApiError::MailNotBuilt(detail) => "Failed to build email: "@ + detail@,
        ApiError::MailNotSent => "Failed to send email. Please try again later."@,
        ApiError::TokenNotSigned(detail) => "JWT Error: "@ + detail@,
        ApiError::NoRefreshToken => "No refresh token found"@,
        ApiError::InvalidRefreshToken => "Invalid or expired refresh token"@,
    }
}

/// Whether `reply` is what is sent for the error `e`.
pub open spec fn is_error_reply(e: ApiError, reply: StatusReply) -> bool {
    reply.status == error_status(e) && reply.message@ == error_message(e)
}

fn text_after(prefix: &str, detail: &String) -> (res: String)
    ensures
        res@ == prefix@ + detail@,
{
    let mut res = prefix.to_owned();
    res.append(detail.as_str());
    res
}

impl ApiError {
    /// The status line and message sent for this error.
    pub fn reply(&self) -> (reply: StatusReply)
        ensures
            is_error_reply(*self, reply),
    {
        match self {
            ApiError::Database(detail) => StatusReply {
                status: STATUS_INTERNAL_SERVER_ERROR,
                message: detail.clone(),
            },
            ApiError::InvalidOtp => StatusReply {
                status: STATUS_UNAUTHORIZED,
                message: "Invalid OTP".to_owned(),
            },
            ApiError::OtpExpired => StatusReply {
                status: STATUS_UNAUTHORIZED,
                message: "OTP has expired".to_owned(),
            },
            ApiError::MailNotBuilt(detail) => StatusReply {
                status: STATUS_INTERNAL_SERVER_ERROR,
                message: text_after("Failed to build email: ", detail),
            },
            ApiError::MailNotSent => StatusReply {
                status: STATUS_INTERNAL_SERVER_ERROR,
                message: "Failed to send email. Please try again later.".to_owned(),
            },
            ApiError::TokenNotSigned(detail) => StatusReply {
                status: STATUS_INTERNAL_SERVER_ERROR,
                message: text_after("JWT Error: ", detail),
            },
            ApiError::NoRefreshToken => StatusReply {
                status: STATUS_UNAUTHORIZED,
                message: "No refresh token found".to_owned(),
            },
            ApiError::InvalidRefreshToken => StatusReply {
                status: STATUS_UNAUTHORIZED,
                message: "Invalid or expired refresh token".to_owned(),
            },
        }
    }
}

/// The name of the cookie that carries the refresh token.
pub open spec fn refresh_cookie_name() -> Seq<char> {
    "refresh_token"@
}

/// The path to which the refresh cookie is sent.
pub open spec fn refresh_cookie_path() -> Seq<char> {
    "/auth"@
}

/// The name of the refresh cookie, for reading it from a request.
pub fn refresh_cookie_name_text() -> (name: String)
    ensures
        name@ == refresh_cookie_name(),
{
    "refresh_token".to_owned()
}

/// The cookie that hands a refresh token to the browser: HTTP-only, secure,
/// same-site strict, sent to `/auth`, kept for 30 days.
pub fn refresh_cookie(token: String) -> (cookie: CookieSpec)
    ensures
        cookie.name@ == refresh_cookie_name(),
        cookie.value == token,
        cookie.http_only,
        cookie.secure,
        cookie.same_site_strict,
        cookie.path@ == refresh_cookie_path(),
        cookie.max_age_secs == Some(SESSION_COOKIE_MAX_AGE_SECS),
{
    CookieSpec {
        name: "refresh_token".to_owned(),
        value: token,
        http_only: true,
        secure: true,
        same_site_strict: true,
        path: "/auth".to_owned(),
        max_age_secs: Some(SESSION_COOKIE_MAX_AGE_SECS),
    }
}

/// The cookie by which the refresh cookie is removed: its name and path, no
/// value and no other attribute.
pub fn removal_cookie() -> (cookie: CookieSpec)
    ensures
        cookie.name@ == refresh_cookie_name(),
        cookie.value@ == Seq::<char>::empty(),
        !cookie.http_only,
        !cookie.secure,
        !cookie.same_site_strict,
        cookie.path@ == refresh_cookie_path(),
        cookie.max_age_secs is None,
{
    CookieSpec {
        name: "refresh_token".to_owned(),
        value: String::new(),
        http_only: false,
        secure: false,
        same_site_strict: false,
        path: "/auth".to_owned(),
        max_age_secs: None,
    }
}

/// The key that signs access tokens: the configured one, or the built-in
/// fallback when none is configured.
pub fn jwt_secret_or_default(configured: Option<String>) -> (secret: String)
    ensures
        configured is Some ==> secret == configured->0,
        configured is None ==> secret@ == "super_secret_fallback"@,
{
    match configured {
        Some(s) => s,
        None => "super_secret_fallback".to_owned(),
    }
}

/// The sender of login e-mails: the configured one, or the built-in default.
pub fn sender_or_default(configured: Option<String>) -> (sender: String)
    ensures
        configured is Some ==> sender == configured->0,
        configured is None ==> sender@ == "dustandorbit@allanbrunner.dev"@,
{
    match configured {
        Some(s) => s,
        None => "dustandorbit@allanbrunner.dev".to_owned(),
    }
}

} // verus!
