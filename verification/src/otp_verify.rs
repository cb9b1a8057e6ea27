//! The decisions behind a login with a code: the code is checked and spent,
//! the user found or created, an access token signed and a refresh session
//! opened. The handler performs the actions this flow asks for and reports
//! how each went.
use vstd::prelude::*;
use crate::api::{
    is_error_reply, refresh_cookie, refresh_cookie_name, refresh_cookie_path, ApiError,
    AuthResponse, CookieSpec, StatusReply,
};
use crate::clock::{
    access_token_expiry, instant_before, is_before, is_clock_reading, now, seconds_after,
    session_expires_at, Timestamp, ACCESS_TOKEN_TTL_SECS, SESSION_COOKIE_MAX_AGE_SECS,
    SESSION_TTL_SECS,
};
use crate::access_token::{access_token_of, is_access_token_signing, sign_user_token};
use crate::ids::{format_uuid, is_uuid_v7, new_uuid_v7, new_uuid_v7_besides, uuid_text};
use crate::secret_hash::{hash_secret, secret_digest_text};
use crate::text::{normalize_email, normalized_email, trim, trim_text};

verus! {

/// A stored code that matched: its row id and when it expires.
#[derive(Debug, PartialEq, Eq)]
pub struct OtpRecord {
    pub id: u128,
    pub expires_at: Timestamp,
}

/// A user account.
#[derive(Debug, PartialEq, Eq)]
pub struct UserRecord {
    pub id: u128,
    pub username: String,
}

/// How the awaited action went.
#[derive(Debug, PartialEq, Eq)]
pub enum VerifyOtpEvent {
    /// The deletion of the code or the storing of the session succeeded.
    Succeeded,
    /// The awaited action failed, with this error text.
    Failed(String),
    /// The code lookup found this row, or none.
    CodeLookedUp(Option<OtpRecord>),
    /// The user lookup found this account, or none.
    UserLookedUp(Option<UserRecord>),
    /// The account was created.
    UserCreated(UserRecord),
}

/// A completed login: the signed token and its expiry, the user and the id of
/// the refresh token handed out.
#[derive(Debug, PartialEq, Eq)]
pub struct VerifiedLogin {
    pub access_token: String,
    pub exp: u64,
    pub user: UserRecord,
    pub token_id: u128,
}

/// The action that the flow awaits, or how it ended.
#[derive(Debug, PartialEq, Eq)]
pub enum VerifyOtpStage {
    LookupCode,
    DeleteCode { otp_id: u128 },
    LookupUser,
    CreateUser { user_id: u128 },
    StoreSession {
        user: UserRecord,
        access_token: String,
        exp: u64,
        session_id: u128,
        token_id: u128,
        expires_at: Timestamp,
    },
    Finished(Result<VerifiedLogin, ApiError>),
}

/// A successful answer: the refresh cookie to set and the body.
#[derive(Debug, PartialEq, Eq)]
pub struct VerifyReply {
    pub cookie: CookieSpec,
    pub body: AuthResponse,
}

/// What the handler must do next.
#[derive(Debug, PartialEq, Eq)]
pub enum VerifyOtpAction {
    /// Find the stored code for this address and hash.
    LookupCode { email: String, code_hash: String },
    /// Delete the code, now spent.
    DeleteCode { otp_id: u128 },
    /// Find the account of this address.
    LookupUser { email: String },
    /// Create an account with this id for this address.
    CreateUser { user_id: u128, email: String },
    /// Store a refresh session.
    StoreSession {
        session_id: u128,
        user_id: u128,
        token_hash: String,
        expires_at: Timestamp,
        user_agent: Option<String>,
    },
    /// Answer the request.
    Respond(Result<VerifyReply, StatusReply>),
}

/// A login with a code in progress.
#[derive(Debug, PartialEq, Eq)]
pub struct VerifyOtpFlow {
    /// The normalised address.
    pub email: String,
    /// The stored form of the code given (after trimming).
    pub code_hash: String,
    /// The key that signs access tokens.
    pub signing_key: String,
    /// The `User-Agent` of the request, kept with the session.
    pub user_agent: Option<String>,
    pub stage: VerifyOtpStage,
}

/// The user whose access token a step signs: the account that the event
/// brings, where it answers the lookup or the creation of the account.
pub open spec fn user_to_sign(stage: VerifyOtpStage, event: VerifyOtpEvent) -> Option<UserRecord> {
    match (stage, event) {
        (VerifyOtpStage::LookupUser, VerifyOtpEvent::UserLookedUp(Some(user))) => Some(user),
        (VerifyOtpStage::CreateUser { .. }, VerifyOtpEvent::UserCreated(user)) => Some(user),
        _ => None,
    }
}

/// Where a login goes once the access token of `user`, valid 15 minutes from
/// `now`, has been signed with the result `signed`: on to storing the session
/// `session_id` of the refresh token `token_id`, valid 30 days from `now`, or
/// to an error.
pub open spec fn after_signing(
    user: UserRecord,
    now: Timestamp,
    session_id: u128,
    token_id: u128,
    signed: Result<String, String>,
) -> VerifyOtpStage {
    match signed {
        Ok(access_token) => VerifyOtpStage::StoreSession {
            user,
            access_token,
            exp: (now.secs + ACCESS_TOKEN_TTL_SECS) as u64,
            session_id,
            token_id,
            expires_at: seconds_after(now, SESSION_TTL_SECS as int),
        },
        Err(e) => VerifyOtpStage::Finished(Err(ApiError::TokenNotSigned(e))),
    }
}

/// Where a flow goes from `stage` when the awaited action ends with `event`,
/// the clock showing `now`, with `first_id` and `second_id` the fresh
/// identifiers drawn for the step, and `signed` what signing the access token
/// gave where the step signs one (see [`user_to_sign`]). An event that does
/// not answer the awaited action leaves the flow where it is.
pub open spec fn verify_otp_next(
    stage: VerifyOtpStage,
    event: VerifyOtpEvent,
    now: Timestamp,
    first_id: u128,
    second_id: u128,
    signed: Result<String, String>,
) -> VerifyOtpStage {
    match stage {
        VerifyOtpStage::Finished(r) => VerifyOtpStage::Finished(r),
        VerifyOtpStage::LookupCode => match event {
            VerifyOtpEvent::Failed(e) => VerifyOtpStage::Finished(Err(ApiError::Database(e))),
            VerifyOtpEvent::CodeLookedUp(None) => VerifyOtpStage::Finished(Err(ApiError::InvalidOtp)),
            VerifyOtpEvent::CodeLookedUp(Some(r)) => if instant_before(r.expires_at, now) {
                VerifyOtpStage::Finished(Err(ApiError::OtpExpired))
            } else {
                VerifyOtpStage::DeleteCode { otp_id: r.id }
            },
            _ => stage,
        },
        VerifyOtpStage::DeleteCode { .. } => match event {
            VerifyOtpEvent::Failed(e) => VerifyOtpStage::Finished(Err(ApiError::Database(e))),
            VerifyOtpEvent::Succeeded => VerifyOtpStage::LookupUser,
            _ => stage,
        },
        VerifyOtpStage::LookupUser => match event {
            VerifyOtpEvent::Failed(e) => VerifyOtpStage::Finished(Err(ApiError::Database(e))),
            VerifyOtpEvent::UserLookedUp(Some(user)) => after_signing(user, now, first_id, second_id, signed),
            VerifyOtpEvent::UserLookedUp(None) => VerifyOtpStage::CreateUser { user_id: first_id },
            _ => stage,
        },
        VerifyOtpStage::CreateUser { .. } => match event {
            VerifyOtpEvent::Failed(e) => VerifyOtpStage::Finished(Err(ApiError::Database(e))),
            VerifyOtpEvent::UserCreated(user) => after_signing(user, now, first_id, second_id, signed),
            _ => stage,
        },
        VerifyOtpStage::StoreSession { user, access_token, exp, token_id, .. } => match event {
            VerifyOtpEvent::Failed(e) => VerifyOtpStage::Finished(Err(ApiError::Database(e))),
            VerifyOtpEvent::Succeeded => VerifyOtpStage::Finished(
                Ok(VerifiedLogin { access_token, exp, user, token_id }),
            ),
            _ => stage,
        },
    }
}

/// Whether the access token that `flow` holds, once it holds one, is the
/// HS256 token of its user's id and its expiry under the flow's key.
pub open spec fn access_token_signed(flow: VerifyOtpFlow) -> bool {
    match flow.stage {
        VerifyOtpStage::StoreSession { user, access_token, exp, .. } => access_token@
            == access_token_of(user.id, exp, flow.signing_key@),
        VerifyOtpStage::Finished(Ok(login)) => login.access_token@ == access_token_of(
            login.user.id,
            login.exp,
            flow.signing_key@,
        ),
        _ => true,
    }
}

/// The stored form of the refresh token with id `token_id`.
pub open spec fn session_token_hash(token_id: u128) -> Seq<char> {
    secret_digest_text(uuid_text(token_id))
}

/// Whether `reply` is the successful answer for `login`.
pub open spec fn is_login_reply(login: VerifiedLogin, reply: VerifyReply) -> bool {
    &&& reply.cookie.name@ == refresh_cookie_name()
    &&& reply.cookie.value@ == uuid_text(login.token_id)
    &&& reply.cookie.http_only
    &&& reply.cookie.secure
    &&& reply.cookie.same_site_strict
    &&& reply.cookie.path@ == refresh_cookie_path()
    &&& reply.cookie.max_age_secs == Some(SESSION_COOKIE_MAX_AGE_SECS)
    &&& reply.body.access_token == login.access_token
    &&& reply.body.username == login.user.username
    &&& reply.body.message@ == "Authentication successful"@
}

/// Whether `action` is what `flow` asks for in its stage.
pub open spec fn is_verify_otp_action(flow: VerifyOtpFlow, action: VerifyOtpAction) -> bool {
    match flow.stage {
        VerifyOtpStage::LookupCode => action == VerifyOtpAction::LookupCode {
            email: flow.email,
            code_hash: flow.code_hash,
        },
        VerifyOtpStage::DeleteCode { otp_id } => action == VerifyOtpAction::DeleteCode { otp_id },
        VerifyOtpStage::LookupUser => action == VerifyOtpAction::LookupUser { email: flow.email },
        VerifyOtpStage::CreateUser { user_id } => action == VerifyOtpAction::CreateUser {
            user_id,
            email: flow.email,
        },
        VerifyOtpStage::StoreSession { user, session_id, token_id, expires_at, .. } => match action {
            VerifyOtpAction::StoreSession {
                session_id: sid,
                user_id,
                token_hash,
                expires_at: until,
                user_agent,
            } => {
                &&& sid == session_id
                &&& user_id == user.id
                &&& token_hash@ == session_token_hash(token_id)
                &&& until == expires_at
                &&& user_agent == flow.user_agent
            },
            _ => false,
        },
        VerifyOtpStage::Finished(result) => match action {
            VerifyOtpAction::Respond(answer) => match (result, answer) {
                (Ok(login), Ok(reply)) => is_login_reply(login, reply),
                (Err(e), Err(reply)) => is_error_reply(e, reply),
                _ => false,
            },
            _ => false,
        },
    }
}

fn copy_user(user: &UserRecord) -> (res: UserRecord)
    ensures
        res == *user,
{
    UserRecord { id: user.id, username: user.username.clone() }
}

fn copy_user_agent(agent: &Option<String>) -> (res: Option<String>)
    ensures
        res == *agent,
{
    match agent {
        Some(a) => Some(a.clone()),
        None => None,
    }
}

impl VerifyOtpFlow {
    /// Starts a login with the address and code as typed and the key that
    /// signs access tokens.
    pub fn start(raw_email: &str, raw_code: &str, signing_key: String, user_agent: Option<String>) -> (flow: Self)
        ensures
            flow.email@ == normalized_email(raw_email@),
            flow.code_hash@ == secret_digest_text(trim(raw_code@)),
            flow.signing_key == signing_key,
            flow.user_agent == user_agent,
            flow.stage is LookupCode,
            access_token_signed(flow),
    {
        let email = normalize_email(raw_email);
        let code = trim_text(raw_code);
        let code_hash = hash_secret(code.as_str());
        VerifyOtpFlow { email, code_hash, signing_key, user_agent, stage: VerifyOtpStage::LookupCode }
    }

    /// What the flow asks for now.
    pub fn current_action(&self) -> (action: VerifyOtpAction)
        ensures
            is_verify_otp_action(*self, action),
    {
        match &self.stage {
            VerifyOtpStage::LookupCode => VerifyOtpAction::LookupCode {
                email: self.email.clone(),
                code_hash: self.code_hash.clone(),
            },
            VerifyOtpStage::DeleteCode { otp_id } => VerifyOtpAction::DeleteCode { otp_id: *otp_id },
            VerifyOtpStage::LookupUser => VerifyOtpAction::LookupUser { email: self.email.clone() },
            VerifyOtpStage::CreateUser { user_id } => VerifyOtpAction::CreateUser {
                user_id: *user_id,
                email: self.email.clone(),
            },
            VerifyOtpStage::StoreSession { user, session_id, token_id, expires_at, .. } => {
                let token = format_uuid(*token_id);
                VerifyOtpAction::StoreSession {
                    session_id: *session_id,
                    user_id: user.id,
                    token_hash: hash_secret(token.as_str()),
                    expires_at: *expires_at,
                    user_agent: copy_user_agent(&self.user_agent),
                }
            },
            VerifyOtpStage::Finished(result) => match result {
                Ok(login) => {
                    let cookie = refresh_cookie(format_uuid(login.token_id));
                    let body = AuthResponse {
                        access_token: login.access_token.clone(),
                        username: login.user.username.clone(),
                        message: "Authentication successful".to_owned(),
                    };
                    VerifyOtpAction::Respond(Ok(VerifyReply { cookie, body }))
                },
                Err(e) => VerifyOtpAction::Respond(Err(e.reply())),
            },
        }
    }

    /// Takes in how the awaited action went, with the clock showing `now`,
    /// `first_id`, `second_id` the fresh identifiers for this step and
    /// `signed` what signing the access token gave where the step signs one,
    /// and says what to do next.
    pub fn step_with(
        &mut self,
        event: VerifyOtpEvent,
        now: Timestamp,
        first_id: u128,
        second_id: u128,
        signed: Result<String, String>,
    ) -> (action: VerifyOtpAction)
        requires
            is_clock_reading(now),
        ensures
            final(self).email == old(self).email,
            final(self).code_hash == old(self).code_hash,
            final(self).signing_key == old(self).signing_key,
            final(self).user_agent == old(self).user_agent,
            final(self).stage == verify_otp_next(old(self).stage, event, now, first_id, second_id, signed),
            is_verify_otp_action(*final(self), action),
    {
        let mut stage = VerifyOtpStage::LookupCode;
        std::mem::swap(&mut stage, &mut self.stage);
        let next = match stage {
            VerifyOtpStage::Finished(r) => VerifyOtpStage::Finished(r),
            VerifyOtpStage::LookupCode => match event {
                VerifyOtpEvent::Failed(e) => VerifyOtpStage::Finished(Err(ApiError::Database(e))),
                VerifyOtpEvent::CodeLookedUp(None) => VerifyOtpStage::Finished(Err(ApiError::InvalidOtp)),
                VerifyOtpEvent::CodeLookedUp(Some(r)) => if is_before(r.expires_at, now) {
                    VerifyOtpStage::Finished(Err(ApiError::OtpExpired))
                } else {
                    VerifyOtpStage::DeleteCode { otp_id: r.id }
                },
                _ => VerifyOtpStage::LookupCode,
            },
            VerifyOtpStage::DeleteCode { otp_id } => match event {
                VerifyOtpEvent::Failed(e) => VerifyOtpStage::Finished(Err(ApiError::Database(e))),
                VerifyOtpEvent::Succeeded => VerifyOtpStage::LookupUser,
                _ => VerifyOtpStage::DeleteCode { otp_id },
            },
            VerifyOtpStage::LookupUser => match event {
                VerifyOtpEvent::Failed(e) => VerifyOtpStage::Finished(Err(ApiError::Database(e))),
                VerifyOtpEvent::UserLookedUp(Some(user)) => Self::signed_stage(user, now, first_id, second_id, signed),
                VerifyOtpEvent::UserLookedUp(None) => VerifyOtpStage::CreateUser { user_id: first_id },
                _ => VerifyOtpStage::LookupUser,
            },
            VerifyOtpStage::CreateUser { user_id } => match event {
                VerifyOtpEvent::Failed(e) => VerifyOtpStage::Finished(Err(ApiError::Database(e))),
                VerifyOtpEvent::UserCreated(user) => Self::signed_stage(user, now, first_id, second_id, signed),
                _ => VerifyOtpStage::CreateUser { user_id },
            },
            VerifyOtpStage::StoreSession { user, access_token, exp, session_id, token_id, expires_at } => match event {
                VerifyOtpEvent::Failed(e) => VerifyOtpStage::Finished(Err(ApiError::Database(e))),
                VerifyOtpEvent::Succeeded => VerifyOtpStage::Finished(
                    Ok(VerifiedLogin { access_token, exp, user, token_id }),
                ),
                _ => VerifyOtpStage::StoreSession { user, access_token, exp, session_id, token_id, expires_at },
            },
        };
        self.stage = next;
        self.current_action()
    }

    fn signed_stage(
        user: UserRecord,
        now: Timestamp,
        session_id: u128,
        token_id: u128,
        signed: Result<String, String>,
    ) -> (stage: VerifyOtpStage)
        requires
            is_clock_reading(now),
        ensures
            stage == after_signing(user, now, session_id, token_id, signed),
    {
        match signed {
            Ok(access_token) => VerifyOtpStage::StoreSession {
                user,
                access_token,
                exp: access_token_expiry(now),
                session_id,
                token_id,
                expires_at: session_expires_at(now),
            },
            Err(e) => VerifyOtpStage::Finished(Err(ApiError::TokenNotSigned(e))),
        }
    }

    /// Takes in how the awaited action went and says what to do next. The
    /// clock is read for the step; where the event brings the account, its
    /// access token is signed with the flow's key, valid 15 minutes; fresh
    /// version-7 UUIDs are drawn where the step makes an account (one) or,
    /// once the token is signed, a session (two: the session's id, then the
    /// refresh token's).
    pub fn step(&mut self, event: VerifyOtpEvent) -> (action: VerifyOtpAction)
        ensures
            final(self).email == old(self).email,
            final(self).code_hash == old(self).code_hash,
            final(self).signing_key == old(self).signing_key,
            final(self).user_agent == old(self).user_agent,
            exists|now: Timestamp, first_id: u128, second_id: u128, signed: Result<String, String>|
                is_clock_reading(now) && (user_to_sign(old(self).stage, event) matches Some(user)
                    ==> is_access_token_signing(
                    signed,
                    user.id,
                    (now.secs + ACCESS_TOKEN_TTL_SECS) as u64,
                    old(self).signing_key@,
                )) && final(self).stage == #[trigger] verify_otp_next(
                    old(self).stage,
                    event,
                    now,
                    first_id,
                    second_id,
                    signed,
                ),
            user_to_sign(old(self).stage, event) matches Some(user) ==> (final(self).stage matches VerifyOtpStage::StoreSession {
                user: stored_user,
                access_token,
                exp,
                ..
            } && stored_user == user && access_token@ == access_token_of(user.id, exp, final(self).signing_key@)),
            access_token_signed(*old(self)) ==> access_token_signed(*final(self)),
            (final(self).stage is CreateUser && !(old(self).stage is CreateUser)) ==> is_uuid_v7(
                final(self).stage->user_id,
            ),
            (final(self).stage is StoreSession && !(old(self).stage is StoreSession)) ==> is_uuid_v7(
                final(self).stage->session_id,
            ) && is_uuid_v7(final(self).stage->token_id)
                && final(self).stage->session_id != final(self).stage->token_id,
            is_verify_otp_action(*final(self), action),
    {
        let now = now();
        let exp = access_token_expiry(now);
        let to_sign: Option<u128> = match (&self.stage, &event) {
            (VerifyOtpStage::LookupUser, VerifyOtpEvent::UserLookedUp(Some(user))) => Some(user.id),
            (VerifyOtpStage::CreateUser { .. }, VerifyOtpEvent::UserCreated(user)) => Some(user.id),
            _ => None,
        };
        let signed = match to_sign {
            Some(user_id) => sign_user_token(user_id, exp, self.signing_key.as_str()),
            None => Err(String::new()),
        };
        let (first_id, second_id) = match (&self.stage, &event) {
            (VerifyOtpStage::LookupUser, VerifyOtpEvent::UserLookedUp(None)) => (new_uuid_v7(), 0),
            _ => if to_sign.is_some() && signed.is_ok() {
                let session_id = new_uuid_v7();
                let token_id = new_uuid_v7_besides(session_id);
                (session_id, token_id)
            } else {
                (0, 0)
            },
        };
        let ghost old_stage = self.stage;
        let ghost ev = event;
        let ghost sg = signed;
        let action = self.step_with(event, now, first_id, second_id, signed);
        assert(self.stage == verify_otp_next(old_stage, ev, now, first_id, second_id, sg));
        action
    }
}

} // verus!
