//! A model of the three tables the endpoints read and write (`auth_otps`,
//! `users`, `refresh_tokens`) and of what the statements that the flows ask
//! for do to them, when they succeed.
use vstd::prelude::*;
use crate::clock::{instant_before, Timestamp};
use crate::api::ApiError;
use crate::otp_request::{OtpIssue, RequestOtpAction, RequestOtpStage};
use crate::otp_verify::{OtpRecord, VerifyOtpAction};
use crate::session::{LogoutPlan, SessionRecord};

verus! {

/// A row of `auth_otps`.
pub struct CodeRow {
    pub email: Seq<char>,
    pub code_hash: Seq<char>,
    pub expires_at: Timestamp,
}

/// A row of `users`.
pub struct UserRow {
    pub email: Seq<char>,
    pub username: Seq<char>,
}

/// A row of `refresh_tokens`.
pub struct SessionRow {
    pub user_id: u128,
    pub token_hash: Seq<char>,
    pub expires_at: Timestamp,
}

/// The three tables, each keyed by its rows' `id`.
pub struct Tables {
    pub codes: Map<u128, CodeRow>,
    pub users: Map<u128, UserRow>,
    pub sessions: Map<u128, SessionRow>,
}

/// An instant as a `timestamptz` column keeps it: to the microsecond.
pub open spec fn stored_instant(t: Timestamp) -> Timestamp {
    Timestamp { secs: t.secs, nanos: (t.nanos - t.nanos % 1000) as u32 }
}

/// `DELETE FROM auth_otps WHERE email = $1`.
pub open spec fn delete_codes_of(t: Tables, email: Seq<char>) -> Tables {
    Tables {
        codes: Map::new(
            |id: u128| t.codes.contains_key(id) && t.codes[id].email != email,
            |id: u128| t.codes[id],
        ),
        users: t.users,
        sessions: t.sessions,
    }
}

/// `INSERT INTO auth_otps ...`, the row getting the fresh id `id`.
pub open spec fn insert_code(t: Tables, id: u128, row: CodeRow) -> Tables {
    Tables { codes: t.codes.insert(id, row), users: t.users, sessions: t.sessions }
}

/// `DELETE FROM auth_otps WHERE expires_at < NOW()`, the database clock showing `db_now`.
pub open spec fn sweep_expired_codes(t: Tables, db_now: Timestamp) -> Tables {
    Tables {
        codes: Map::new(
            |id: u128| t.codes.contains_key(id) && !instant_before(t.codes[id].expires_at, db_now),
            |id: u128| t.codes[id],
        ),
        users: t.users,
        sessions: t.sessions,
    }
}

/// `DELETE FROM auth_otps WHERE id = $1`.
pub open spec fn delete_code(t: Tables, id: u128) -> Tables {
    Tables { codes: t.codes.remove(id), users: t.users, sessions: t.sessions }
}

/// `INSERT INTO refresh_tokens ...`.
pub open spec fn store_session(t: Tables, id: u128, row: SessionRow) -> Tables {
    Tables { codes: t.codes, users: t.users, sessions: t.sessions.insert(id, row) }
}

/// `DELETE FROM refresh_tokens WHERE token_hash = $1`.
pub open spec fn delete_sessions_with(t: Tables, token_hash: Seq<char>) -> Tables {
    Tables {
        codes: t.codes,
        users: t.users,
        sessions: Map::new(
            |id: u128| t.sessions.contains_key(id) && t.sessions[id].token_hash != token_hash,
            |id: u128| t.sessions[id],
        ),
    }
}

/// The row that a request for the code of `issue` stores.
pub open spec fn code_row_of(issue: OtpIssue) -> CodeRow {
    CodeRow {
        email: issue.email@,
        code_hash: issue.code_hash@,
        expires_at: stored_instant(issue.expires_at),
    }
}

/// The row that a login stores for its refresh token.
pub open spec fn session_row(user_id: u128, token_hash: Seq<char>, expires_at: Timestamp) -> SessionRow {
    SessionRow { user_id, token_hash, expires_at: stored_instant(expires_at) }
}

/// The tables after a request for the code of `issue` whose statements all
/// succeed: in one transaction, the codes of the address are deleted and the
/// new code is stored, under the fresh id `id`.
pub open spec fn request_otp_tables(t: Tables, issue: OtpIssue, id: u128) -> Tables {
    insert_code(delete_codes_of(t, issue.email@), id, code_row_of(issue))
}

/// Whether `answer` is a possible answer of
/// `SELECT id, expires_at FROM auth_otps WHERE email = $1 AND code_hash = $2`.
pub open spec fn is_code_lookup_answer(
    t: Tables,
    email: Seq<char>,
    code_hash: Seq<char>,
    answer: Option<OtpRecord>,
) -> bool {
    match answer {
        None => forall|id: u128|
            #[trigger] t.codes.contains_key(id) ==> !(t.codes[id].email == email
                && t.codes[id].code_hash == code_hash),
        Some(r) => {
            &&& t.codes.contains_key(r.id)
            &&& t.codes[r.id].email == email
            &&& t.codes[r.id].code_hash == code_hash
            &&& t.codes[r.id].expires_at == r.expires_at
        },
    }
}

/// Whether `answer` is a possible answer of the session lookup: a session with
/// this token hash that is still valid at the database clock `db_now`, joined
/// with its user.
pub open spec fn is_session_lookup_answer(
    t: Tables,
    token_hash: Seq<char>,
    db_now: Timestamp,
    answer: Option<SessionRecord>,
) -> bool {
    match answer {
        None => forall|id: u128|
            #[trigger] t.sessions.contains_key(id) && t.sessions[id].token_hash == token_hash
                && instant_before(db_now, t.sessions[id].expires_at) ==> !t.users.contains_key(
                t.sessions[id].user_id,
            ),
        Some(s) => exists|id: u128|
            #[trigger] t.sessions.contains_key(id) && t.sessions[id].token_hash == token_hash
                && instant_before(db_now, t.sessions[id].expires_at) && t.sessions[id].user_id
                == s.user_id && t.users.contains_key(s.user_id) && t.users[s.user_id].username
                == s.username@,
    }
}

/// What the statement that a request for a code asks for with `action` does
/// to the tables as the request's own transaction sees them, when it
/// succeeds: a new row gets the id `id`, and the sweep of expired codes (run
/// apart, on its own connection) runs with the database clock at `db_now`.
/// Others see the transaction's statements only once it commits (see
/// [`request_visible_tables`]).
pub open spec fn request_action_tables(t: Tables, action: RequestOtpAction, id: u128, db_now: Timestamp) -> Tables {
    match action {
        RequestOtpAction::DeletePrevious { email } => delete_codes_of(t, email@),
        RequestOtpAction::SweepExpired => sweep_expired_codes(t, db_now),
        RequestOtpAction::InsertCode { email, code_hash, expires_at } => insert_code(
            t,
            id,
            CodeRow { email: email@, code_hash: code_hash@, expires_at: stored_instant(expires_at) },
        ),
        _ => t,
    }
}

/// Whether a request that has reached `stage` has committed its transaction:
/// it got past the commit, to the e-mail or to an answer about the e-mail.
pub open spec fn request_committed(stage: RequestOtpStage) -> bool {
    match stage {
        RequestOtpStage::BuildMail => true,
        RequestOtpStage::SendMail => true,
        RequestOtpStage::Finished(Ok(())) => true,
        RequestOtpStage::Finished(Err(ApiError::MailNotBuilt(_))) => true,
        RequestOtpStage::Finished(Err(ApiError::MailNotSent)) => true,
        _ => false,
    }
}

/// The code tables as others see them while, or after, a request for the
/// code of `issue` is at `stage`: the address's earlier codes replaced by the
/// new one (row `id`) once the transaction has committed, and unchanged
/// before, or when a statement or the commit failed and the transaction was
/// rolled back.
pub open spec fn request_visible_tables(t: Tables, issue: OtpIssue, id: u128, stage: RequestOtpStage) -> Tables {
    if request_committed(stage) {
        request_otp_tables(t, issue, id)
    } else {
        t
    }
}

/// What the statement that a login asks for with `action` does to the tables
/// when it succeeds; a new account gets the name `username` from the
/// database.
pub open spec fn login_action_tables(t: Tables, action: VerifyOtpAction, username: Seq<char>) -> Tables {
    match action {
        VerifyOtpAction::DeleteCode { otp_id } => delete_code(t, otp_id),
        VerifyOtpAction::CreateUser { user_id, email } => Tables {
            codes: t.codes,
            users: t.users.insert(user_id, UserRow { email: email@, username }),
            sessions: t.sessions,
        },
        VerifyOtpAction::StoreSession { session_id, user_id, token_hash, expires_at, .. } => store_session(
            t,
            session_id,
            session_row(user_id, token_hash@, expires_at),
        ),
        _ => t,
    }
}

/// What a logout's deletion does to the tables when it runs.
pub open spec fn logout_tables(t: Tables, plan: LogoutPlan) -> Tables {
    match plan.delete_token_hash {
        Some(token_hash) => delete_sessions_with(t, token_hash@),
        None => t,
    }
}

/// No address has more than one stored code.
pub open spec fn at_most_one_code_per_address(t: Tables) -> bool {
    forall|a: u128, b: u128|
        #![trigger t.codes[a], t.codes[b]]
        t.codes.contains_key(a) && t.codes.contains_key(b) && t.codes[a].email == t.codes[b].email
            ==> a == b
}

} // verus!
