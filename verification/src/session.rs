//! Refresh sessions: exchanging the refresh cookie for a new access token,
//! and logging out.
use vstd::prelude::*;
use crate::api::{
    is_error_reply, removal_cookie, refresh_cookie_name, refresh_cookie_path, ApiError,
    AuthResponse, CookieSpec, StatusReply,
};
use crate::clock::{access_token_expiry, is_clock_reading, now, Timestamp, ACCESS_TOKEN_TTL_SECS};
use crate::access_token::{access_token_of, is_access_token_signing, sign_user_token};
use crate::secret_hash::{hash_secret, secret_digest_text};

verus! {

/// A live session that matched a refresh token: its user.
#[derive(Debug, PartialEq, Eq)]
pub struct SessionRecord {
    pub user_id: u128,
    pub username: String,
}

/// How the awaited action went.
#[derive(Debug, PartialEq, Eq)]
pub enum RefreshEvent {
    /// The awaited action failed, with this error text.
    Failed(String),
    /// The session lookup found this live session, or none.
    SessionLookedUp(Option<SessionRecord>),
}

/// A refreshed login: the new token, its expiry, and the user's id and name.
#[derive(Debug, PartialEq, Eq)]
pub struct RefreshedLogin {
    pub access_token: String,
    pub exp: u64,
    pub user_id: u128,
    pub username: String,
}

/// The action that the flow awaits, or how it ended.
#[derive(Debug, PartialEq, Eq)]
pub enum RefreshStage {
    LookupSession,
    Finished(Result<RefreshedLogin, ApiError>),
}

/// What the handler must do next.
#[derive(Debug, PartialEq, Eq)]
pub enum RefreshAction {
    /// Find the live session (not yet expired) whose token has this hash.
    LookupSession { token_hash: String },
    /// Answer the request.
    Respond(Result<AuthResponse, StatusReply>),
}

/// A token refresh in progress.
#[derive(Debug, PartialEq, Eq)]
pub struct RefreshFlow {
    /// The stored form of the refresh token presented (empty when none was).
    pub token_hash: String,
    /// The key that signs access tokens.
    pub signing_key: String,
    pub stage: RefreshStage,
}

/// The session whose user a refresh step signs a token for: the live session
/// that the event brings, where it answers the lookup.
pub open spec fn session_to_sign(stage: RefreshStage, event: RefreshEvent) -> Option<SessionRecord> {
    match (stage, event) {
        (RefreshStage::LookupSession, RefreshEvent::SessionLookedUp(Some(session))) => Some(session),
        _ => None,
    }
}

/// Where a refresh goes from `stage` when the awaited action ends with
/// `event`, the clock showing `now`, and `signed` what signing the access
/// token gave where the step signs one (see [`session_to_sign`]). An event
/// that does not answer the awaited action leaves the flow where it is.
pub open spec fn refresh_next(
    stage: RefreshStage,
    event: RefreshEvent,
    now: Timestamp,
    signed: Result<String, String>,
) -> RefreshStage {
    match stage {
        RefreshStage::Finished(r) => RefreshStage::Finished(r),
        RefreshStage::LookupSession => match event {
            RefreshEvent::Failed(e) => RefreshStage::Finished(Err(ApiError::Database(e))),
            RefreshEvent::SessionLookedUp(None) => RefreshStage::Finished(Err(ApiError::InvalidRefreshToken)),
            RefreshEvent::SessionLookedUp(Some(session)) => match signed {
                Ok(access_token) => RefreshStage::Finished(
                    Ok(
                        RefreshedLogin {
                            access_token,
                            exp: (now.secs + ACCESS_TOKEN_TTL_SECS) as u64,
                            user_id: session.user_id,
                            username: session.username,
                        },
                    ),
                ),
                Err(e) => RefreshStage::Finished(Err(ApiError::TokenNotSigned(e))),
            },
        },
    }
}

/// Whether the token that `flow` answers with, once it has one, is the HS256
/// access token of the session's user and its expiry under the flow's key.
pub open spec fn refresh_token_signed(flow: RefreshFlow) -> bool {
    match flow.stage {
        RefreshStage::Finished(Ok(login)) => login.access_token@ == access_token_of(
            login.user_id,
            login.exp,
            flow.signing_key@,
        ),
        _ => true,
    }
}

/// Whether `action` is what `flow` asks for in its stage.
pub open spec fn is_refresh_action(flow: RefreshFlow, action: RefreshAction) -> bool {
    match flow.stage {
        RefreshStage::LookupSession => action == RefreshAction::LookupSession {
            token_hash: flow.token_hash,
        },
        RefreshStage::Finished(result) => match action {
            RefreshAction::Respond(answer) => match (result, answer) {
                (Ok(login), Ok(body)) => {
                    &&& body.access_token == login.access_token
                    &&& body.username == login.username
                    &&& body.message@ == "Token refreshed successfully"@
                },
                (Err(e), Err(reply)) => is_error_reply(e, reply),
                _ => false,
            },
            _ => false,
        },
    }
}

impl RefreshFlow {
    /// Starts a refresh with the value of the refresh cookie, if the request
    /// carries one, and the key that signs access tokens.
    pub fn start(cookie: Option<&str>, signing_key: String) -> (flow: Self)
        ensures
            flow.signing_key == signing_key,
            cookie is None ==> flow.stage == RefreshStage::Finished(Err(ApiError::NoRefreshToken)),
            cookie is Some ==> flow.stage is LookupSession && flow.token_hash@ == secret_digest_text(
                cookie->0@,
            ),
            refresh_token_signed(flow),
    {
        match cookie {
            Some(value) => RefreshFlow {
                token_hash: hash_secret(value),
                signing_key,
                stage: RefreshStage::LookupSession,
            },
            None => RefreshFlow {
                token_hash: String::new(),
                signing_key,
                stage: RefreshStage::Finished(Err(ApiError::NoRefreshToken)),
            },
        }
    }

    /// What the flow asks for now.
    pub fn current_action(&self) -> (action: RefreshAction)
        ensures
            is_refresh_action(*self, action),
    {
        match &self.stage {
            RefreshStage::LookupSession => RefreshAction::LookupSession {
                token_hash: self.token_hash.clone(),
            },
            RefreshStage::Finished(result) => match result {
                Ok(login) => RefreshAction::Respond(
                    Ok(
                        AuthResponse {
                            access_token: login.access_token.clone(),
                            username: login.username.clone(),
                            message: "Token refreshed successfully".to_owned(),
                        },
                    ),
                ),
                Err(e) => RefreshAction::Respond(Err(e.reply())),
            },
        }
    }

    /// Takes in how the awaited action went, with the clock showing `now`
    /// and `signed` what signing the access token gave where the step signs
    /// one, and says what to do next.
    pub fn step_with(&mut self, event: RefreshEvent, now: Timestamp, signed: Result<String, String>) -> (action: RefreshAction)
        requires
            is_clock_reading(now),
        ensures
            final(self).token_hash == old(self).token_hash,
            final(self).signing_key == old(self).signing_key,
            final(self).stage == refresh_next(old(self).stage, event, now, signed),
            is_refresh_action(*final(self), action),
    {
        let mut stage = RefreshStage::LookupSession;
        std::mem::swap(&mut stage, &mut self.stage);
        let next = match stage {
            RefreshStage::Finished(r) => RefreshStage::Finished(r),
            RefreshStage::LookupSession => match event {
                RefreshEvent::Failed(e) => RefreshStage::Finished(Err(ApiError::Database(e))),
                RefreshEvent::SessionLookedUp(None) => RefreshStage::Finished(Err(ApiError::InvalidRefreshToken)),
                RefreshEvent::SessionLookedUp(Some(session)) => match signed {
                    Ok(access_token) => RefreshStage::Finished(
                        Ok(
                            RefreshedLogin {
                                access_token,
                                exp: access_token_expiry(now),
                                user_id: session.user_id,
                                username: session.username,
                            },
                        ),
                    ),
                    Err(e) => RefreshStage::Finished(Err(ApiError::TokenNotSigned(e))),
                },
            },
        };
        self.stage = next;
        self.current_action()
    }

    /// Takes in how the awaited action went and says what to do next. The
    /// clock is read for the step; where the event brings a live session, an
    /// access token for its user is signed with the flow's key, valid 15
    /// minutes.
    pub fn step(&mut self, event: RefreshEvent) -> (action: RefreshAction)
        ensures
            final(self).token_hash == old(self).token_hash,
            final(self).signing_key == old(self).signing_key,
            exists|now: Timestamp, signed: Result<String, String>|
                is_clock_reading(now) && (session_to_sign(old(self).stage, event) matches Some(session)
                    ==> is_access_token_signing(
                    signed,
                    session.user_id,
                    (now.secs + ACCESS_TOKEN_TTL_SECS) as u64,
                    old(self).signing_key@,
                )) && final(self).stage == #[trigger] refresh_next(old(self).stage, event, now, signed),
            session_to_sign(old(self).stage, event) matches Some(session) ==> (final(self).stage matches RefreshStage::Finished(Ok(login))
                && login.user_id == session.user_id && login.username == session.username
                && login.access_token@ == access_token_of(session.user_id, login.exp, final(self).signing_key@)),
            refresh_token_signed(*old(self)) ==> refresh_token_signed(*final(self)),
            is_refresh_action(*final(self), action),
    {
        let now = now();
        let signed = match (&self.stage, &event) {
            (RefreshStage::LookupSession, RefreshEvent::SessionLookedUp(Some(session))) => sign_user_token(
                session.user_id,
                access_token_expiry(now),
                self.signing_key.as_str(),
            ),
            _ => Err(String::new()),
        };
        self.step_with(event, now, signed)
    }
}

/// What a logout does: delete the session of the refresh token presented, if
/// any (whatever the deletion's outcome), then remove the cookie and confirm.
#[derive(Debug, PartialEq, Eq)]
pub struct LogoutPlan {
    /// The stored form of the refresh token whose session is deleted.
    pub delete_token_hash: Option<String>,
    /// The cookie to remove.
    pub removal: CookieSpec,
    /// The confirmation sent back.
    pub message: String,
}

/// Plans a logout for a request that carries the refresh cookie `cookie`, if any.
pub fn plan_logout(cookie: Option<&str>) -> (plan: LogoutPlan)
    ensures
        cookie is None ==> plan.delete_token_hash is None,
        cookie is Some ==> plan.delete_token_hash is Some && plan.delete_token_hash->0@
            == secret_digest_text(cookie->0@),
        plan.removal.name@ == refresh_cookie_name(),
        plan.removal.path@ == refresh_cookie_path(),
        plan.removal.value@ == Seq::<char>::empty(),
        !plan.removal.http_only && !plan.removal.secure && !plan.removal.same_site_strict,
        plan.removal.max_age_secs is None,
        plan.message@ == "Logged out successfully"@,
{
    let delete_token_hash = match cookie {
        Some(value) => Some(hash_secret(value)),
        None => None,
    };
    LogoutPlan {
        delete_token_hash,
        removal: removal_cookie(),
        message: "Logged out successfully".to_owned(),
    }
}

} // verus!
