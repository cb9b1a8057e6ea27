//! Properties that span several operations of the library.
use vstd::prelude::*;
use crate::api::ApiError;
use crate::clock::{instant_before, is_clock_reading, Timestamp};
use crate::otp::{lemma_digit_char_value, otp_code_text, OTP_CODE_SPACE};
use crate::otp_request::{is_issue_for, request_otp_next, Outcome, OtpIssue, RequestOtpStage};
use crate::otp_verify::{
    is_login_reply, is_verify_otp_action, user_to_sign, verify_otp_next, OtpRecord, VerifiedLogin, VerifyOtpAction,
    VerifyOtpEvent, VerifyOtpFlow, VerifyOtpStage, VerifyReply,
};
use crate::secret_hash::secret_digest_text;
use crate::session::{
    refresh_next, session_to_sign, LogoutPlan, RefreshEvent, RefreshFlow, RefreshStage, SessionRecord,
};
use crate::text::{is_white_space, lemma_trim_removes_padding, normalized_email, trim};

verus! {

/// A user who types back the code that was mailed, with any whitespace around
/// it, and an address that normalises to the same one, looks up exactly the
/// address and hash under which the code was stored.
pub proof fn lemma_typed_code_finds_stored_code(
    issue: OtpIssue,
    raw_email: Seq<char>,
    n: nat,
    now: Timestamp,
    sweep: bool,
    sender: Option<String>,
    login: VerifyOtpFlow,
    typed_email: Seq<char>,
    before: Seq<char>,
    after: Seq<char>,
)
    requires
        n < OTP_CODE_SPACE,
        is_issue_for(issue, raw_email, n, now, sweep, sender),
        normalized_email(typed_email) == normalized_email(raw_email),
        forall|i: int| 0 <= i < before.len() ==> is_white_space(#[trigger] before[i]),
        forall|i: int| 0 <= i < after.len() ==> is_white_space(#[trigger] after[i]),
        login.email@ == normalized_email(typed_email),
        login.code_hash@ == secret_digest_text(trim(before + otp_code_text(n) + after)),
    ensures
        login.email@ == issue.email@,
        login.code_hash@ == issue.code_hash@,
{
    let code = otp_code_text(n);
    lemma_digit_char_value(n / 100000 % 10);
    lemma_digit_char_value(n % 10);
    assert(code[0] == crate::otp::digit_char(n / 100000 % 10));
    assert(code.last() == crate::otp::digit_char(n % 10));
    lemma_trim_removes_padding(before, code, after);
}

/// The refresh cookie handed out at login names the session stored at login:
/// presenting it (to refresh, or to log out) looks up, or deletes, exactly
/// the token hash that was stored.
pub proof fn lemma_refresh_cookie_names_stored_session(
    flow: VerifyOtpFlow,
    store: VerifyOtpAction,
    now: Timestamp,
    first_id: u128,
    second_id: u128,
    signed: Result<String, String>,
    login: VerifiedLogin,
    reply: VerifyReply,
    refresh: RefreshFlow,
    logout: LogoutPlan,
)
    requires
        flow.stage is StoreSession,
        is_verify_otp_action(flow, store),
        verify_otp_next(flow.stage, VerifyOtpEvent::Succeeded, now, first_id, second_id, signed)
            == VerifyOtpStage::Finished(Ok::<VerifiedLogin, ApiError>(login)),
        is_login_reply(login, reply),
        refresh.token_hash@ == secret_digest_text(reply.cookie.value@),
        logout.delete_token_hash is Some,
        logout.delete_token_hash->0@ == secret_digest_text(reply.cookie.value@),
    ensures
        store matches VerifyOtpAction::StoreSession { token_hash, .. } && token_hash@
            == refresh.token_hash@ && token_hash@ == logout.delete_token_hash->0@,
{
}

/// The stage of a login after it has taken in `steps`, each an event with
/// the clock reading, the two identifiers drawn for it and the result of
/// signing the access token.
pub open spec fn verify_otp_run(
    stage: VerifyOtpStage,
    steps: Seq<(VerifyOtpEvent, Timestamp, u128, u128, Result<String, String>)>,
) -> VerifyOtpStage
    decreases steps.len(),
{
    if steps.len() == 0 {
        stage
    } else {
        verify_otp_run(
            verify_otp_next(stage, steps[0].0, steps[0].1, steps[0].2, steps[0].3, steps[0].4),
            steps.drop_first(),
        )
    }
}

proof fn lemma_verify_otp_finished_stays(
    result: Result<VerifiedLogin, ApiError>,
    steps: Seq<(VerifyOtpEvent, Timestamp, u128, u128, Result<String, String>)>,
)
    ensures
        verify_otp_run(VerifyOtpStage::Finished(result), steps) == VerifyOtpStage::Finished(result),
    decreases steps.len(),
{
    if steps.len() > 0 {
        lemma_verify_otp_finished_stays(result, steps.drop_first());
    }
}

/// Whether a step answers a code lookup with a stored code that had not
/// expired at the step's clock reading.
pub open spec fn is_live_code_answer(step: (VerifyOtpEvent, Timestamp, u128, u128, Result<String, String>)) -> bool {
    match step.0 {
        VerifyOtpEvent::CodeLookedUp(Some(record)) => !instant_before(record.expires_at, step.1),
        _ => false,
    }
}

/// A login succeeds only if a stored code matched and had not expired at the
/// moment it was checked.
pub proof fn lemma_login_needs_live_code(steps: Seq<(VerifyOtpEvent, Timestamp, u128, u128, Result<String, String>)>)
    requires
        verify_otp_run(VerifyOtpStage::LookupCode, steps) is Finished,
        verify_otp_run(VerifyOtpStage::LookupCode, steps)->Finished_0 is Ok,
    ensures
        exists|i: int| 0 <= i < steps.len() && is_live_code_answer(#[trigger] steps[i]),
    decreases steps.len(),
{
    let next = verify_otp_next(
        VerifyOtpStage::LookupCode,
        steps[0].0,
        steps[0].1,
        steps[0].2,
        steps[0].3,
        steps[0].4,
    );
    match next {
        VerifyOtpStage::Finished(r) => {
            lemma_verify_otp_finished_stays(r, steps.drop_first());
        },
        VerifyOtpStage::LookupCode => {
            lemma_login_needs_live_code(steps.drop_first());
            let i = choose|i: int|
                0 <= i < steps.drop_first().len() && is_live_code_answer(#[trigger] steps.drop_first()[i]);
            assert(steps[i + 1] == steps.drop_first()[i]);
        },
        _ => {
            assert(is_live_code_answer(steps[0]));
        },
    }
}

/// The order of a login: each stage is entered only from the one before it,
/// on the answer that the stage before awaited. In particular the code is
/// spent before any account is touched, a session is stored only once the
/// account is known and its access token signed, and the answer is a success
/// only once the session is stored.
pub proof fn lemma_verify_otp_order(
    stage: VerifyOtpStage,
    event: VerifyOtpEvent,
    now: Timestamp,
    first_id: u128,
    second_id: u128,
    signed: Result<String, String>,
)
    ensures
        ({
            let next = verify_otp_next(stage, event, now, first_id, second_id, signed);
            &&& (next is DeleteCode && !(stage is DeleteCode)) ==> stage is LookupCode && event is CodeLookedUp
                && event->CodeLookedUp_0 is Some && !instant_before(event->CodeLookedUp_0->0.expires_at, now)
            &&& (next is LookupUser && !(stage is LookupUser)) ==> stage is DeleteCode && event is Succeeded
            &&& (next is CreateUser && !(stage is CreateUser)) ==> stage is LookupUser && event == VerifyOtpEvent::UserLookedUp(None)
            &&& (next is StoreSession && !(stage is StoreSession)) ==> user_to_sign(stage, event) is Some && signed is Ok
            &&& (next is Finished && next->Finished_0 is Ok && !(stage is Finished)) ==> stage is StoreSession && event is Succeeded
        }),
{
}

/// The position of a login stage in the order of the flow.
pub open spec fn verify_otp_rank(stage: VerifyOtpStage) -> int {
    match stage {
        VerifyOtpStage::LookupCode => 0,
        VerifyOtpStage::DeleteCode { .. } => 1,
        VerifyOtpStage::LookupUser => 2,
        VerifyOtpStage::CreateUser { .. } => 3,
        VerifyOtpStage::StoreSession { .. } => 4,
        VerifyOtpStage::Finished(_) => 5,
    }
}

/// A login only moves forward: each event leaves it where it is or takes it
/// to a later stage, so it finishes after at most five answered actions.
pub proof fn lemma_verify_otp_moves_forward(
    stage: VerifyOtpStage,
    event: VerifyOtpEvent,
    now: Timestamp,
    first_id: u128,
    second_id: u128,
    signed: Result<String, String>,
)
    ensures
        ({
            let next = verify_otp_next(stage, event, now, first_id, second_id, signed);
            next == stage || verify_otp_rank(stage) < verify_otp_rank(next)
        }),
{
}

/// The position of a code-request stage in the order of the flow.
pub open spec fn request_otp_rank(stage: RequestOtpStage) -> int {
    match stage {
        RequestOtpStage::BeginTransaction => 0,
        RequestOtpStage::DeletePrevious => 1,
        RequestOtpStage::SweepExpired => 2,
        RequestOtpStage::InsertCode => 3,
        RequestOtpStage::Commit => 4,
        RequestOtpStage::BuildMail => 5,
        RequestOtpStage::SendMail => 6,
        RequestOtpStage::Finished(_) => 7,
    }
}

/// A request for a code only moves forward, so it finishes after at most
/// seven answered actions.
pub proof fn lemma_request_otp_moves_forward(stage: RequestOtpStage, sweep: bool, outcome: Outcome)
    ensures
        ({
            let next = request_otp_next(stage, sweep, outcome);
            next == stage || request_otp_rank(stage) < request_otp_rank(next)
        }),
{
}

/// The order of a request for a code: the previous codes are deleted before
/// the new one is stored, and the e-mail is built and sent only once the
/// transaction that stores the code has committed; the request is answered
/// with success only once the e-mail has gone. Any failure before ends the
/// request with an error.
pub proof fn lemma_request_otp_order(stage: RequestOtpStage, sweep: bool, outcome: Outcome)
    ensures
        ({
            let next = request_otp_next(stage, sweep, outcome);
            &&& next is DeletePrevious ==> stage is BeginTransaction && outcome is Succeeded
            &&& next is InsertCode ==> (stage is DeletePrevious && outcome is Succeeded) || stage is SweepExpired
            &&& next is Commit ==> stage is InsertCode && outcome is Succeeded
            &&& next is BuildMail ==> stage is Commit && outcome is Succeeded
            &&& next is SendMail ==> stage is BuildMail && outcome is Succeeded
            &&& (next == RequestOtpStage::Finished(Ok(())) && !(stage is Finished)) ==> stage is SendMail && outcome is Succeeded
            &&& (outcome is Failed && !(stage is SweepExpired) && !(stage is Finished)) ==> next is Finished && next->Finished_0 is Err
        }),
{
}

/// The position of a refresh stage in the order of the flow.
pub open spec fn refresh_rank(stage: RefreshStage) -> int {
    match stage {
        RefreshStage::LookupSession => 0,
        RefreshStage::Finished(_) => 1,
    }
}

/// A refresh only moves forward, so it finishes after at most one answered
/// action.
pub proof fn lemma_refresh_moves_forward(
    stage: RefreshStage,
    event: RefreshEvent,
    now: Timestamp,
    signed: Result<String, String>,
)
    ensures
        ({
            let next = refresh_next(stage, event, now, signed);
            next == stage || refresh_rank(stage) < refresh_rank(next)
        }),
{
}

/// A refresh answers with a new token only if a live session matched the
/// cookie and the token was signed.
pub proof fn lemma_refresh_order(
    stage: RefreshStage,
    event: RefreshEvent,
    now: Timestamp,
    signed: Result<String, String>,
)
    ensures
        ({
            let next = refresh_next(stage, event, now, signed);
            (next is Finished && next->Finished_0 is Ok && !(stage is Finished)) ==> session_to_sign(stage, event) is Some && signed is Ok
        }),
{
}

/// A code found by the lookup is accepted exactly when its expiry is not
/// before the clock reading of the step, to the nanosecond, and then the
/// login goes on to spend that very row; otherwise it is refused as expired.
/// A lookup that finds nothing is refused as an invalid code.
pub proof fn lemma_login_checks_the_code_against_the_clock(
    record: OtpRecord,
    now: Timestamp,
    first_id: u128,
    second_id: u128,
    signed: Result<String, String>,
)
    requires
        now.nanos < 1_000_000_000,
        record.expires_at.nanos < 1_000_000_000,
    ensures
        ({
            let next = verify_otp_next(
                VerifyOtpStage::LookupCode,
                VerifyOtpEvent::CodeLookedUp(Some(record)),
                now,
                first_id,
                second_id,
                signed,
            );
            let expiry_ns = record.expires_at.secs * 1_000_000_000 + record.expires_at.nanos;
            let now_ns = now.secs * 1_000_000_000 + now.nanos;
            &&& now_ns <= expiry_ns ==> (next matches VerifyOtpStage::DeleteCode { otp_id } && otp_id
                == record.id)
            &&& expiry_ns < now_ns ==> (next matches VerifyOtpStage::Finished(Err(ApiError::OtpExpired)))
        }),
        verify_otp_next(
            VerifyOtpStage::LookupCode,
            VerifyOtpEvent::CodeLookedUp(None),
            now,
            first_id,
            second_id,
            signed,
        ) matches VerifyOtpStage::Finished(Err(ApiError::InvalidOtp)),
{
    let e = record.expires_at;
    if e.secs < now.secs {
        assert(e.secs * 1_000_000_000 + e.nanos < now.secs * 1_000_000_000 + now.nanos) by (nonlinear_arith)
            requires
                e.secs < now.secs,
                e.nanos < 1_000_000_000,
                now.nanos < 1_000_000_000,
        ;
    } else if e.secs > now.secs {
        assert(e.secs * 1_000_000_000 + e.nanos > now.secs * 1_000_000_000 + now.nanos) by (nonlinear_arith)
            requires
                e.secs > now.secs,
                e.nanos < 1_000_000_000,
                now.nanos < 1_000_000_000,
        ;
    }
}

/// Once the account is known (found by the lookup, or just created) and its
/// access token signed, a login opens its session: for that account, with
/// that token, valid 900 seconds (15 minutes) from the step's clock reading,
/// under the two identifiers drawn for the step, and with a session that
/// expires 2 592 000 seconds (30 days) after the same reading, to the
/// nanosecond. New and existing accounts are treated alike.
pub proof fn lemma_login_opens_a_thirty_day_session(
    stage: VerifyOtpStage,
    event: VerifyOtpEvent,
    now: Timestamp,
    first_id: u128,
    second_id: u128,
    token: String,
)
    requires
        is_clock_reading(now),
        (stage is LookupUser && event matches VerifyOtpEvent::UserLookedUp(Some(_)))
            || (stage is CreateUser && event is UserCreated),
    ensures
        ({
            let user = match event {
                VerifyOtpEvent::UserLookedUp(Some(u)) => u,
                VerifyOtpEvent::UserCreated(u) => u,
                _ => arbitrary(),
            };
            verify_otp_next(stage, event, now, first_id, second_id, Ok(token)) matches VerifyOtpStage::StoreSession {
                user: stored_user,
                access_token,
                exp,
                session_id,
                token_id,
                expires_at,
            } && stored_user == user && access_token == token && exp == now.secs + 900 && session_id
                == first_id && token_id == second_id && expires_at.secs == now.secs + 2_592_000
                && expires_at.nanos == now.nanos
        }),
{
}

/// A login enters the stage that stores the session only from knowing the
/// account, with its token signed; and, from there, ends with success carrying
/// the same token, its expiry, the same account and the refresh token whose
/// hash was stored.
pub proof fn lemma_login_session_only_after_signing(
    stage: VerifyOtpStage,
    event: VerifyOtpEvent,
    now: Timestamp,
    first_id: u128,
    second_id: u128,
    signed: Result<String, String>,
)
    ensures
        ({
            let next = verify_otp_next(stage, event, now, first_id, second_id, signed);
            (next is StoreSession && !(stage is StoreSession)) ==> (signed is Ok && ((stage is LookupUser
                && event matches VerifyOtpEvent::UserLookedUp(Some(_))) || (stage is CreateUser
                && event is UserCreated)))
        }),
        (stage is StoreSession && event is Succeeded) ==> (verify_otp_next(
            stage,
            event,
            now,
            first_id,
            second_id,
            signed,
        ) matches VerifyOtpStage::Finished(Ok(login)) && login.user == stage->user && login.access_token
            == stage->access_token && login.exp == stage->exp && login.token_id == stage->token_id),
{
}

/// A new account is created under the first identifier drawn for the step,
/// and only when the lookup found no account.
pub proof fn lemma_login_creates_account_only_when_none_found(
    stage: VerifyOtpStage,
    event: VerifyOtpEvent,
    now: Timestamp,
    first_id: u128,
    second_id: u128,
    signed: Result<String, String>,
)
    ensures
        ({
            let next = verify_otp_next(stage, event, now, first_id, second_id, signed);
            &&& (stage is LookupUser && event matches VerifyOtpEvent::UserLookedUp(None)) ==> (next matches VerifyOtpStage::CreateUser { user_id } && user_id == first_id)
            &&& (next is CreateUser && !(stage is CreateUser)) ==> (stage is LookupUser && event matches VerifyOtpEvent::UserLookedUp(None))
        }),
{
}

/// A refresh with a live session answers with success for that session's
/// user and name, with the signed token, valid 900 seconds (15 minutes) from
/// the step's clock reading; a refresh that finds no live session is refused.
pub proof fn lemma_refresh_token_lasts_fifteen_minutes(
    session: SessionRecord,
    now: Timestamp,
    token: String,
    signed: Result<String, String>,
)
    requires
        is_clock_reading(now),
    ensures
        refresh_next(RefreshStage::LookupSession, RefreshEvent::SessionLookedUp(Some(session)), now, Ok(token))
            matches RefreshStage::Finished(Ok(login)) && login.exp == now.secs + 900 && login.user_id
            == session.user_id && login.username == session.username && login.access_token == token,
        refresh_next(RefreshStage::LookupSession, RefreshEvent::SessionLookedUp(None), now, signed)
            matches RefreshStage::Finished(Err(ApiError::InvalidRefreshToken)),
{
}

/// An issued code expires 900 seconds (15 minutes) after the clock reading at
/// which it was issued, to the nanosecond, as the e-mail promises.
pub proof fn lemma_code_expires_fifteen_minutes_after_issue(
    issue: OtpIssue,
    raw_email: Seq<char>,
    n: nat,
    now: Timestamp,
    sweep: bool,
    sender: Option<String>,
)
    requires
        is_clock_reading(now),
        is_issue_for(issue, raw_email, n, now, sweep, sender),
    ensures
        issue.expires_at.secs == now.secs + 900,
        issue.expires_at.nanos == now.nanos,
{
}

} // verus!
