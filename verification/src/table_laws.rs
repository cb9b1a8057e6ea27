//! Laws across requests, over the model of the tables: how a code, once
//! mailed, can be used, and how a refresh cookie lives and dies.
use vstd::prelude::*;
use crate::api::ApiError;
use crate::clock::{instant_before, is_clock_reading, seconds_after, Timestamp, OTP_TTL_SECS, ACCESS_TOKEN_TTL_SECS};
use crate::access_token::{access_token_of, is_access_token_signing};
use crate::otp::OTP_CODE_SPACE;
use crate::otp_request::{
    is_issue_for, is_request_otp_action, request_otp_next, OtpIssue, Outcome, RequestOtpAction,
    RequestOtpFlow, RequestOtpStage,
};
use crate::otp_verify::{
    is_verify_otp_action, session_token_hash, verify_otp_next, OtpRecord, UserRecord, VerifiedLogin,
    VerifyOtpAction, VerifyOtpEvent, VerifyOtpFlow, VerifyOtpStage,
};
use crate::session::{refresh_next, LogoutPlan, RefreshEvent, RefreshStage, RefreshedLogin, SessionRecord};
use crate::tables::{
    at_most_one_code_per_address, code_row_of, delete_code, delete_codes_of, delete_sessions_with,
    is_code_lookup_answer, is_session_lookup_answer, login_action_tables, logout_tables,
    request_action_tables, request_committed, request_otp_tables, request_visible_tables, session_row,
    store_session, stored_instant, sweep_expired_codes, Tables,
};

verus! {

/// The login stage that ends the request with `error`.
pub open spec fn login_refused(error: ApiError) -> VerifyOtpStage {
    VerifyOtpStage::Finished(Err(error))
}

/// The login stage that spends the matched code `otp_id`.
pub open spec fn code_accepted(otp_id: u128) -> VerifyOtpStage {
    VerifyOtpStage::DeleteCode { otp_id }
}

/// The login stage that ends the request with the access token
/// `access_token`, valid until `exp`, for `user`, and the refresh token
/// `token_id`.
pub open spec fn logged_in(access_token: String, exp: u64, user: UserRecord, token_id: u128) -> VerifyOtpStage {
    VerifyOtpStage::Finished(Ok(VerifiedLogin { access_token, exp, user, token_id }))
}

/// The login stage reached from the spent code `otp_id` when every later
/// statement succeeds: the code is deleted, the account is looked up (`found`)
/// and, where there was none, created (`created`), the access token is signed
/// (`signed`) and the session is stored.
pub open spec fn login_after_code(
    otp_id: u128,
    found: Option<UserRecord>,
    created: UserRecord,
    signed: Result<String, String>,
    now: Timestamp,
    first_id: u128,
    second_id: u128,
) -> VerifyOtpStage {
    let deleted = verify_otp_next(code_accepted(otp_id), VerifyOtpEvent::Succeeded, now, first_id, second_id, signed);
    let looked_up = verify_otp_next(deleted, VerifyOtpEvent::UserLookedUp(found), now, first_id, second_id, signed);
    let with_user = match found {
        Some(_) => looked_up,
        None => verify_otp_next(looked_up, VerifyOtpEvent::UserCreated(created), now, first_id, second_id, signed),
    };
    verify_otp_next(with_user, VerifyOtpEvent::Succeeded, now, first_id, second_id, signed)
}

/// The stored code `id` with expiry `expires_at`, as the lookup returns it.
pub open spec fn found_code(id: u128, expires_at: Timestamp) -> OtpRecord {
    OtpRecord { id, expires_at }
}

/// The refresh stage that refuses the cookie.
pub open spec fn refresh_refused() -> RefreshStage {
    RefreshStage::Finished(Err(ApiError::InvalidRefreshToken))
}

/// The refresh stage that answers with `access_token`, valid 15 minutes from
/// `now`, for the user `user_id` named `username`.
pub open spec fn refreshed(access_token: String, now: Timestamp, user_id: u128, username: String) -> RefreshStage {
    RefreshStage::Finished(
        Ok(
            RefreshedLogin {
                access_token,
                exp: (now.secs + ACCESS_TOKEN_TTL_SECS) as u64,
                user_id,
                username,
            },
        ),
    )
}

/// A request for a code leaves at most one stored code per address, and for
/// its own address exactly one: the new code.
pub proof fn lemma_request_keeps_one_code_per_address(t: Tables, issue: OtpIssue, id: u128)
    requires
        at_most_one_code_per_address(t),
        !t.codes.contains_key(id),
    ensures
        ({
            let after = request_otp_tables(t, issue, id);
            &&& at_most_one_code_per_address(after)
            &&& after.codes.contains_key(id)
            &&& after.codes[id] == code_row_of(issue)
            &&& forall|other: u128|
                #[trigger] after.codes.contains_key(other) && after.codes[other].email == issue.email@
                    ==> other == id
        }),
{
    let after = request_otp_tables(t, issue, id);
    assert forall|a: u128, b: u128|
        #![trigger after.codes[a], after.codes[b]]
        after.codes.contains_key(a) && after.codes.contains_key(b) && after.codes[a].email
            == after.codes[b].email implies a == b by {
        if a != id && b != id {
            assert(t.codes[a] == after.codes[a] && t.codes[b] == after.codes[b]);
        }
    }
}

/// A code that is accepted logs in when every later statement succeeds and
/// the access token is signed: with the account found, or else with the one
/// created, a token valid 15 minutes, and the refresh token drawn for the
/// session. When signing fails the login ends with that error.
pub proof fn lemma_accepted_code_logs_in(
    otp_id: u128,
    found: Option<UserRecord>,
    created: UserRecord,
    signed: Result<String, String>,
    now: Timestamp,
    first_id: u128,
    second_id: u128,
)
    ensures
        (signed is Ok && found is Some) ==> login_after_code(otp_id, found, created, signed, now, first_id, second_id)
            == logged_in(signed->Ok_0, (now.secs + ACCESS_TOKEN_TTL_SECS) as u64, found->0, second_id),
        (signed is Ok && found is None) ==> login_after_code(otp_id, found, created, signed, now, first_id, second_id)
            == logged_in(signed->Ok_0, (now.secs + ACCESS_TOKEN_TTL_SECS) as u64, created, second_id),
        signed is Err ==> login_after_code(otp_id, found, created, signed, now, first_id, second_id)
            == login_refused(ApiError::TokenNotSigned(signed->Err_0)),
{
}

/// Deleting codes, one spent code or the expired ones, keeps at most one
/// stored code per address.
pub proof fn lemma_deletes_keep_one_code_per_address(t: Tables, id: u128, db_now: Timestamp)
    requires
        at_most_one_code_per_address(t),
    ensures
        at_most_one_code_per_address(delete_code(t, id)),
        at_most_one_code_per_address(sweep_expired_codes(t, db_now)),
{
    let swept = sweep_expired_codes(t, db_now);
    assert forall|a: u128, b: u128|
        #![trigger swept.codes[a], swept.codes[b]]
        swept.codes.contains_key(a) && swept.codes.contains_key(b) && swept.codes[a].email
            == swept.codes[b].email implies a == b by {
        assert(t.codes[a] == swept.codes[a] && t.codes[b] == swept.codes[b]);
    }
    let deleted = delete_code(t, id);
    assert forall|a: u128, b: u128|
        #![trigger deleted.codes[a], deleted.codes[b]]
        deleted.codes.contains_key(a) && deleted.codes.contains_key(b) && deleted.codes[a].email
            == deleted.codes[b].email implies a == b by {
        assert(t.codes[a] == deleted.codes[a] && t.codes[b] == deleted.codes[b]);
    }
}

/// The statements that a request for a code asks for, deleting the codes of
/// its address and then storing the new one, take the tables to
/// [`request_otp_tables`].
pub proof fn lemma_request_actions_store_the_code(
    t: Tables,
    issue: OtpIssue,
    delete: RequestOtpAction,
    insert: RequestOtpAction,
    id: u128,
    db_now: Timestamp,
)
    requires
        is_request_otp_action((RequestOtpFlow { issue, stage: RequestOtpStage::DeletePrevious }), delete),
        is_request_otp_action((RequestOtpFlow { issue, stage: RequestOtpStage::InsertCode }), insert),
    ensures
        request_action_tables(request_action_tables(t, delete, id, db_now), insert, id, db_now)
            == request_otp_tables(t, issue, id),
{
}

/// A request's transaction, step by step: nothing it does is seen by others
/// until the commit succeeds, which makes the new code the address's only
/// one; a request that ends with a database error (a failed statement or
/// commit) has changed nothing; once committed, it stays committed.
pub proof fn lemma_request_transaction(
    t: Tables,
    issue: OtpIssue,
    id: u128,
    stage: RequestOtpStage,
    sweep: bool,
    outcome: Outcome,
)
    ensures
        ({
            let next = request_otp_next(stage, sweep, outcome);
            &&& (!request_committed(stage) && !(stage is Commit && outcome is Succeeded))
                ==> request_visible_tables(t, issue, id, next) == t
            &&& (stage is Commit && outcome is Succeeded) ==> request_visible_tables(t, issue, id, next)
                == request_otp_tables(t, issue, id)
            &&& (next matches RequestOtpStage::Finished(Err(ApiError::Database(_))))
                ==> request_visible_tables(t, issue, id, next) == t
            &&& request_committed(stage) ==> request_committed(next)
        }),
{
}

/// The statement that a login asks for once it accepts the code `otp_id`
/// deletes exactly that code; the one it asks for to open the session stores
/// the session's row, under the hash of the refresh token handed out.
pub proof fn lemma_login_actions_on_tables(
    t: Tables,
    flow: VerifyOtpFlow,
    action: VerifyOtpAction,
    username: Seq<char>,
)
    requires
        is_verify_otp_action(flow, action),
    ensures
        flow.stage is DeleteCode ==> login_action_tables(t, action, username) == delete_code(t, flow.stage->otp_id),
        flow.stage is StoreSession ==> login_action_tables(t, action, username) == store_session(
            t,
            flow.stage->session_id,
            session_row(flow.stage->user.id, session_token_hash(flow.stage->token_id), flow.stage->expires_at),
        ),
{
}

/// Logging out is idempotent: running the deletion of a logout plan a second
/// time leaves the tables as the first run left them.
pub proof fn lemma_logout_is_idempotent(t: Tables, plan: LogoutPlan)
    ensures
        logout_tables(logout_tables(t, plan), plan) == logout_tables(t, plan),
{
    if let Some(h) = plan.delete_token_hash {
        let once = delete_sessions_with(t, h@);
        let twice = delete_sessions_with(once, h@);
        assert(twice.sessions =~= once.sessions);
    }
}

/// No stored code at first means at most one per address; and every
/// statement the endpoints run keeps at most one stored code per address: a
/// login's statements, a logout, the sweep of expired codes, and a request for
/// a code at any point of its transaction (its new row taking a fresh id).
pub proof fn lemma_every_statement_keeps_one_code_per_address(
    t: Tables,
    action: VerifyOtpAction,
    username: Seq<char>,
    plan: LogoutPlan,
    issue: OtpIssue,
    id: u128,
    stage: RequestOtpStage,
    db_now: Timestamp,
)
    ensures
        t.codes.is_empty() ==> at_most_one_code_per_address(t),
        at_most_one_code_per_address(t) ==> at_most_one_code_per_address(login_action_tables(t, action, username)),
        at_most_one_code_per_address(t) ==> at_most_one_code_per_address(logout_tables(t, plan)),
        at_most_one_code_per_address(t) ==> at_most_one_code_per_address(sweep_expired_codes(t, db_now)),
        (at_most_one_code_per_address(t) && !t.codes.contains_key(id)) ==> at_most_one_code_per_address(
            request_visible_tables(t, issue, id, stage),
        ),
{
    if at_most_one_code_per_address(t) {
        lemma_deletes_keep_one_code_per_address(t, id, db_now);
        if let VerifyOtpAction::DeleteCode { otp_id } = action {
            lemma_deletes_keep_one_code_per_address(t, otp_id, db_now);
        }
        if !t.codes.contains_key(id) {
            lemma_request_keeps_one_code_per_address(t, issue, id);
        }
    }
}

/// A code logs in at most once: the login deletes the row it matched, so as
/// long as no new code is stored for the address, the same code is then
/// refused as invalid. (`at_most_one_code_per_address` holds of every state
/// of the tables: see [`lemma_every_statement_keeps_one_code_per_address`].)
pub proof fn lemma_code_logs_in_once(
    t: Tables,
    email: Seq<char>,
    code_hash: Seq<char>,
    record: OtpRecord,
    now: Timestamp,
    later: Tables,
    answer: Option<OtpRecord>,
    later_now: Timestamp,
    first_id: u128,
    second_id: u128,
    signed: Result<String, String>,
)
    requires
        at_most_one_code_per_address(t),
        is_code_lookup_answer(t, email, code_hash, Some(record)),
        forall|id: u128|
            #[trigger] later.codes.contains_key(id) && later.codes[id].email == email
                ==> delete_code(t, record.id).codes.contains_key(id)
                && later.codes[id] == delete_code(t, record.id).codes[id],
        is_code_lookup_answer(later, email, code_hash, answer),
    ensures
        !instant_before(record.expires_at, now) ==> verify_otp_next(
            VerifyOtpStage::LookupCode,
            VerifyOtpEvent::CodeLookedUp(Some(record)),
            now,
            first_id,
            second_id,
            signed,
        ) == code_accepted(record.id),
        answer is None,
        verify_otp_next(
            VerifyOtpStage::LookupCode,
            VerifyOtpEvent::CodeLookedUp(answer),
            later_now,
            first_id,
            second_id,
            signed,
        ) == login_refused(ApiError::InvalidOtp),
{
    if let Some(r) = answer {
        assert(delete_code(t, record.id).codes.contains_key(r.id));
        assert(t.codes.contains_key(r.id) && t.codes[r.id] == later.codes[r.id]);
        assert(t.codes[r.id].email == t.codes[record.id].email);
    }
}

/// A code typed back finds the row its request stored (as long as no new code
/// was stored for the address): it logs in while the clock shows no later than
/// the stored expiry (the request's time plus 15 minutes, to the microsecond),
/// and is refused as expired once the clock is past the request's time plus 15
/// minutes. With the access token signed (which signing always is) and the
/// later statements succeeding, the login then ends with success.
pub proof fn lemma_code_valid_for_fifteen_minutes(
    t: Tables,
    issue: OtpIssue,
    raw_email: Seq<char>,
    n: nat,
    issued_at: Timestamp,
    sweep: bool,
    sender: Option<String>,
    id: u128,
    later: Tables,
    answer: Option<OtpRecord>,
    now: Timestamp,
    first_id: u128,
    second_id: u128,
    signed: Result<String, String>,
    found: Option<UserRecord>,
    created: UserRecord,
)
    requires
        n < OTP_CODE_SPACE,
        is_issue_for(issue, raw_email, n, issued_at, sweep, sender),
        is_clock_reading(issued_at),
        !t.codes.contains_key(id),
        forall|c: u128|
            #[trigger] later.codes.contains_key(c) && later.codes[c].email == issue.email@
                ==> request_otp_tables(t, issue, id).codes.contains_key(c) && later.codes[c]
                == request_otp_tables(t, issue, id).codes[c],
        later.codes.contains_key(id),
        later.codes[id] == request_otp_tables(t, issue, id).codes[id],
        is_code_lookup_answer(later, issue.email@, issue.code_hash@, answer),
    ensures
        answer == Some(found_code(id, stored_instant(issue.expires_at))),
        !instant_before(stored_instant(issue.expires_at), now) ==> verify_otp_next(
            VerifyOtpStage::LookupCode,
            VerifyOtpEvent::CodeLookedUp(answer),
            now,
            first_id,
            second_id,
            signed,
        ) == code_accepted(id),
        (!instant_before(stored_instant(issue.expires_at), now) && signed is Ok) ==> (login_after_code(
            id,
            found,
            created,
            signed,
            now,
            first_id,
            second_id,
        ) matches VerifyOtpStage::Finished(Ok(_))),
        instant_before(seconds_after(issued_at, OTP_TTL_SECS as int), now) ==> verify_otp_next(
            VerifyOtpStage::LookupCode,
            VerifyOtpEvent::CodeLookedUp(answer),
            now,
            first_id,
            second_id,
            signed,
        ) == login_refused(ApiError::OtpExpired),
{
    let after = request_otp_tables(t, issue, id);
    lemma_accepted_code_logs_in(id, found, created, signed, now, first_id, second_id);
    match answer {
        None => {
            assert(later.codes.contains_key(id));
        },
        Some(r) => {
            assert(after.codes.contains_key(r.id) && after.codes[r.id].email == issue.email@);
            if r.id != id {
                assert(delete_codes_of(t, issue.email@).codes.contains_key(r.id));
            }
        },
    }
}

/// After a second request for the same address, the first code no longer logs
/// in (when the two codes have different hashes).
pub proof fn lemma_only_latest_code_is_valid(
    t: Tables,
    first: OtpIssue,
    first_id: u128,
    second: OtpIssue,
    second_id: u128,
    signed: Result<String, String>,
    answer: Option<OtpRecord>,
    now: Timestamp,
    new_id: u128,
    other_id: u128,
)
    requires
        second.email@ == first.email@,
        second.code_hash@ != first.code_hash@,
        is_code_lookup_answer(
            request_otp_tables(request_otp_tables(t, first, first_id), second, second_id),
            first.email@,
            first.code_hash@,
            answer,
        ),
    ensures
        answer is None,
        verify_otp_next(
            VerifyOtpStage::LookupCode,
            VerifyOtpEvent::CodeLookedUp(answer),
            now,
            new_id,
            other_id,
            signed,
        ) == login_refused(ApiError::InvalidOtp),
{
}

/// A session stored at login refreshes, for the user it was stored for and
/// with that user's name, as long as it has not expired by the database clock
/// and has not been deleted (its token being fresh when stored): it answers
/// with success, that user's name and the access token signed for that user.
pub proof fn lemma_session_refreshes_until_it_expires(
    t: Tables,
    session_id: u128,
    user_id: u128,
    username: Seq<char>,
    token_hash: Seq<char>,
    expires_at: Timestamp,
    later: Tables,
    db_now: Timestamp,
    answer: Option<SessionRecord>,
    now: Timestamp,
    signed: Result<String, String>,
    key: Seq<char>,
)
    requires
        forall|sid: u128| #[trigger] t.sessions.contains_key(sid) ==> t.sessions[sid].token_hash != token_hash,
        forall|sid: u128|
            #[trigger] later.sessions.contains_key(sid) && later.sessions[sid].token_hash == token_hash
                ==> store_session(t, session_id, session_row(user_id, token_hash, expires_at)).sessions.contains_key(sid)
                && later.sessions[sid] == store_session(
                t,
                session_id,
                session_row(user_id, token_hash, expires_at),
            ).sessions[sid],
        later.sessions.contains_key(session_id),
        later.sessions[session_id] == session_row(user_id, token_hash, expires_at),
        later.users.contains_key(user_id),
        later.users[user_id].username == username,
        instant_before(db_now, stored_instant(expires_at)),
        is_session_lookup_answer(later, token_hash, db_now, answer),
        is_access_token_signing(signed, user_id, (now.secs + ACCESS_TOKEN_TTL_SECS) as u64, key),
    ensures
        answer is Some,
        answer->0.user_id == user_id,
        answer->0.username@ == username,
        refresh_next(RefreshStage::LookupSession, RefreshEvent::SessionLookedUp(answer), now, signed)
            == refreshed(signed->Ok_0, now, user_id, answer->0.username),
        signed->Ok_0@ == access_token_of(user_id, (now.secs + ACCESS_TOKEN_TTL_SECS) as u64, key),
{
    let stored = store_session(t, session_id, session_row(user_id, token_hash, expires_at));
    match answer {
        None => {
            assert(later.sessions.contains_key(session_id));
        },
        Some(s) => {
            let sid = choose|sid: u128|
                #[trigger] later.sessions.contains_key(sid) && later.sessions[sid].token_hash
                    == token_hash && instant_before(db_now, later.sessions[sid].expires_at)
                    && later.sessions[sid].user_id == s.user_id && later.users.contains_key(
                    s.user_id,
                ) && later.users[s.user_id].username == s.username@;
            assert(stored.sessions.contains_key(sid));
            if sid != session_id {
                assert(t.sessions.contains_key(sid));
            }
        },
    }
}

/// Once logout has deleted the sessions of a token, the token no longer
/// refreshes (as long as no new session with that token was stored).
pub proof fn lemma_logged_out_token_never_refreshes(
    t: Tables,
    token_hash: Seq<char>,
    later: Tables,
    db_now: Timestamp,
    answer: Option<SessionRecord>,
    now: Timestamp,
    signed: Result<String, String>,
)
    requires
        forall|sid: u128|
            #[trigger] later.sessions.contains_key(sid) && later.sessions[sid].token_hash == token_hash
                ==> delete_sessions_with(t, token_hash).sessions.contains_key(sid)
                && delete_sessions_with(t, token_hash).sessions[sid] == later.sessions[sid],
        is_session_lookup_answer(later, token_hash, db_now, answer),
    ensures
        answer is None,
        refresh_next(RefreshStage::LookupSession, RefreshEvent::SessionLookedUp(answer), now, signed)
            == refresh_refused(),
{
    if let Some(s) = answer {
        let sid = choose|sid: u128|
            #[trigger] later.sessions.contains_key(sid) && later.sessions[sid].token_hash
                == token_hash && instant_before(db_now, later.sessions[sid].expires_at)
                && later.sessions[sid].user_id == s.user_id && later.users.contains_key(s.user_id)
                && later.users[s.user_id].username == s.username@;
        assert(delete_sessions_with(t, token_hash).sessions.contains_key(sid));
    }
}

} // verus!
