//! The decisions behind a request for a login code. The handler performs the
//! actions this flow asks for, one at a time, and reports how each went.
use vstd::prelude::*;
use vstd::string::StringExecFns;
use crate::api::{is_error_reply, sender_or_default, ApiError, StatusReply, STATUS_OK};
use crate::chance::{random_below, random_ratio};
use crate::clock::{is_clock_reading, now, otp_expires_at, seconds_after, Timestamp, OTP_TTL_SECS};
use crate::otp::{format_otp_code, otp_code_text, OTP_CODE_SPACE};
use crate::secret_hash::{hash_secret, secret_digest_text};
use crate::text::{normalize_email, normalized_email};

verus! {

/// How the last action went.
#[derive(Debug, PartialEq, Eq)]
pub enum Outcome {
    Succeeded,
    Failed(String),
}

/// Everything decided when a code is requested.
#[derive(Debug, PartialEq, Eq)]
pub struct OtpIssue {
    /// The normalised address the code is for.
    pub email: String,
    /// The code mailed to the user.
    pub code: String,
    /// The stored form of the code.
    pub code_hash: String,
    /// When the code stops being valid.
    pub expires_at: Timestamp,
    /// Whether this request also sweeps the expired codes of all users.
    pub sweep_expired: bool,
    /// The sender of the e-mail.
    pub sender: String,
}

/// The action that the flow awaits, or how it ended.
#[derive(Debug, PartialEq, Eq)]
pub enum RequestOtpStage {
    BeginTransaction,
    DeletePrevious,
    SweepExpired,
    InsertCode,
    Commit,
    BuildMail,
    SendMail,
    Finished(Result<(), ApiError>),
}

/// What the handler must do next.
#[derive(Debug, PartialEq, Eq)]
pub enum RequestOtpAction {
    /// Open a database transaction.
    BeginTransaction,
    /// Within it, delete the codes stored for `email`.
    DeletePrevious { email: String },
    /// Start, without waiting for it, the deletion of every expired code.
    SweepExpired,
    /// Within the transaction, store the code.
    InsertCode { email: String, code_hash: String, expires_at: Timestamp },
    /// Commit the transaction.
    Commit,
    /// Build the e-mail.
    BuildMail { from: String, to: String, subject: String, body: String },
    /// Send the e-mail built.
    SendMail,
    /// Answer the request.
    Respond(StatusReply),
}

/// A request for a login code in progress.
#[derive(Debug, PartialEq, Eq)]
pub struct RequestOtpFlow {
    pub issue: OtpIssue,
    pub stage: RequestOtpStage,
}

/// Where a flow goes from `stage` when the awaited action ends with `outcome`.
/// A failed database step ends the flow with its error; the sweep is not
/// waited for; a finished flow stays finished.
pub open spec fn request_otp_next(stage: RequestOtpStage, sweep: bool, outcome: Outcome) -> RequestOtpStage {
    match stage {
        RequestOtpStage::Finished(r) => RequestOtpStage::Finished(r),
        RequestOtpStage::SweepExpired => RequestOtpStage::InsertCode,
        RequestOtpStage::BuildMail => match outcome {
            Outcome::Succeeded => RequestOtpStage::SendMail,
            Outcome::Failed(e) => RequestOtpStage::Finished(Err(ApiError::MailNotBuilt(e))),
        },
        RequestOtpStage::SendMail => match outcome {
            Outcome::Succeeded => RequestOtpStage::Finished(Ok(())),
            Outcome::Failed(_) => RequestOtpStage::Finished(Err(ApiError::MailNotSent)),
        },
        _ => match outcome {
            Outcome::Failed(e) => RequestOtpStage::Finished(Err(ApiError::Database(e))),
            Outcome::Succeeded => match stage {
                RequestOtpStage::BeginTransaction => RequestOtpStage::DeletePrevious,
                RequestOtpStage::DeletePrevious => if sweep {
                    RequestOtpStage::SweepExpired
                } else {
                    RequestOtpStage::InsertCode
                },
                RequestOtpStage::InsertCode => RequestOtpStage::Commit,
                _ => RequestOtpStage::BuildMail,
            },
        },
    }
}

/// The subject of the login e-mail.
pub open spec fn mail_subject() -> Seq<char> {
    "Dust & Orbit - Your login code"@
}

/// The text of the login e-mail carrying `code`.
pub open spec fn mail_body(code: Seq<char>) -> Seq<char> {
    "Hello Commander,\n\nA login attempt was made for your Dust & Orbit account.\n\nYour secure verification code is: "@
        + code
        + "\n\nThis code will expire in exactly 15 minutes. If you did not request this code, please ignore this email.\n\nSafe travels,\nThe Dust & Orbit Server System\nhttps://dust-and-orbit.allanbrunner.dev"@
}

/// The answer to a request for a code that was mailed.
pub open spec fn is_otp_sent_reply(reply: StatusReply) -> bool {
    reply.status == STATUS_OK && reply.message@ == "Otp sent successfully"@
}

/// Whether `action` is what `flow` asks for in its stage.
pub open spec fn is_request_otp_action(flow: RequestOtpFlow, action: RequestOtpAction) -> bool {
    match flow.stage {
        RequestOtpStage::BeginTransaction => action is BeginTransaction,
        RequestOtpStage::DeletePrevious => action == RequestOtpAction::DeletePrevious {
            email: flow.issue.email,
        },
        RequestOtpStage::SweepExpired => action is SweepExpired,
        RequestOtpStage::InsertCode => action == RequestOtpAction::InsertCode {
            email: flow.issue.email,
            code_hash: flow.issue.code_hash,
            expires_at: flow.issue.expires_at,
        },
        RequestOtpStage::Commit => action is Commit,
        RequestOtpStage::BuildMail => match action {
            RequestOtpAction::BuildMail { from, to, subject, body } => {
                &&& from == flow.issue.sender
                &&& to == flow.issue.email
                &&& subject@ == mail_subject()
                &&& body@ == mail_body(flow.issue.code@)
            },
            _ => false,
        },
        RequestOtpStage::SendMail => action is SendMail,
        RequestOtpStage::Finished(result) => match action {
            RequestOtpAction::Respond(reply) => match result {
                Ok(()) => is_otp_sent_reply(reply),
                Err(e) => is_error_reply(e, reply),
            },
            _ => false,
        },
    }
}

/// The issue of a code `n` for the address `raw_email`, at time `now`.
pub open spec fn is_issue_for(
    issue: OtpIssue,
    raw_email: Seq<char>,
    n: nat,
    now: Timestamp,
    sweep: bool,
    sender: Option<String>,
) -> bool {
    &&& issue.email@ == normalized_email(raw_email)
    &&& issue.code@ == otp_code_text(n)
    &&& issue.code_hash@ == secret_digest_text(otp_code_text(n))
    &&& issue.expires_at == seconds_after(now, OTP_TTL_SECS as int)
    &&& issue.sweep_expired == sweep
    &&& sender is Some ==> issue.sender == sender->0
    &&& sender is None ==> issue.sender@ == "dustandorbit@allanbrunner.dev"@
}

impl RequestOtpFlow {
    /// Starts a request with the code `n`, the sweep decision `sweep` and the
    /// time `now` already drawn.
    pub fn with_draws(raw_email: &str, n: u32, sweep: bool, now: Timestamp, sender: Option<String>) -> (flow: Self)
        requires
            n < OTP_CODE_SPACE,
            is_clock_reading(now),
        ensures
            flow.stage is BeginTransaction,
            is_issue_for(flow.issue, raw_email@, n as nat, now, sweep, sender),
    {
        let email = normalize_email(raw_email);
        let code = format_otp_code(n);
        let code_hash = hash_secret(code.as_str());
        let expires_at = otp_expires_at(now);
        let sender = sender_or_default(sender);
        RequestOtpFlow {
            issue: OtpIssue { email, code, code_hash, expires_at, sweep_expired: sweep, sender },
            stage: RequestOtpStage::BeginTransaction,
        }
    }

    /// Starts a request for a code: draws the code uniformly among one
    /// million, decides with chance one in twenty whether to sweep expired
    /// codes, and reads the clock.
    pub fn start(raw_email: &str, sender: Option<String>) -> (flow: Self)
        ensures
            flow.stage is BeginTransaction,
            exists|n: nat, now: Timestamp|
                n < OTP_CODE_SPACE && is_clock_reading(now) && #[trigger] is_issue_for(
                    flow.issue,
                    raw_email@,
                    n,
                    now,
                    flow.issue.sweep_expired,
                    sender,
                ),
    {
        let n = random_below(OTP_CODE_SPACE);
        let now = now();
        let sweep = random_ratio(1, 20);
        let flow = Self::with_draws(raw_email, n, sweep, now, sender);
        assert(is_issue_for(flow.issue, raw_email@, n as nat, now, flow.issue.sweep_expired, sender));
        flow
    }

    /// What the flow asks for now.
    pub fn current_action(&self) -> (action: RequestOtpAction)
        ensures
            is_request_otp_action(*self, action),
    {
        match &self.stage {
            RequestOtpStage::BeginTransaction => RequestOtpAction::BeginTransaction,
            RequestOtpStage::DeletePrevious => RequestOtpAction::DeletePrevious {
                email: self.issue.email.clone(),
            },
            RequestOtpStage::SweepExpired => RequestOtpAction::SweepExpired,
            RequestOtpStage::InsertCode => RequestOtpAction::InsertCode {
                email: self.issue.email.clone(),
                code_hash: self.issue.code_hash.clone(),
                expires_at: self.issue.expires_at,
            },
            RequestOtpStage::Commit => RequestOtpAction::Commit,
            RequestOtpStage::BuildMail => {
                let mut body = "Hello Commander,\n\nA login attempt was made for your Dust & Orbit account.\n\nYour secure verification code is: ".to_owned();
                body.append(self.issue.code.as_str());
                body.append("\n\nThis code will expire in exactly 15 minutes. If you did not request this code, please ignore this email.\n\nSafe travels,\nThe Dust & Orbit Server System\nhttps://dust-and-orbit.allanbrunner.dev");
                RequestOtpAction::BuildMail {
                    from: self.issue.sender.clone(),
                    to: self.issue.email.clone(),
                    subject: "Dust & Orbit - Your login code".to_owned(),
                    body,
                }
            },
            RequestOtpStage::SendMail => RequestOtpAction::SendMail,
            RequestOtpStage::Finished(result) => match result {
                Ok(()) => RequestOtpAction::Respond(
                    StatusReply { status: STATUS_OK, message: "Otp sent successfully".to_owned() },
                ),
                Err(e) => RequestOtpAction::Respond(e.reply()),
            },
        }
    }

    /// Takes in how the awaited action went and says what to do next.
    pub fn step(&mut self, outcome: Outcome) -> (action: RequestOtpAction)
        ensures
            final(self).issue == old(self).issue,
            final(self).stage == request_otp_next(old(self).stage, old(self).issue.sweep_expired, outcome),
            is_request_otp_action(*final(self), action),
    {
        let mut stage = RequestOtpStage::BeginTransaction;
        std::mem::swap(&mut stage, &mut self.stage);
        let next = match stage {
            RequestOtpStage::Finished(r) => RequestOtpStage::Finished(r),
            RequestOtpStage::SweepExpired => RequestOtpStage::InsertCode,
            RequestOtpStage::BuildMail => match outcome {
                Outcome::Succeeded => RequestOtpStage::SendMail,
                Outcome::Failed(e) => RequestOtpStage::Finished(Err(ApiError::MailNotBuilt(e))),
            },
            RequestOtpStage::SendMail => match outcome {
                Outcome::Succeeded => RequestOtpStage::Finished(Ok(())),
                Outcome::Failed(_) => RequestOtpStage::Finished(Err(ApiError::MailNotSent)),
            },
            RequestOtpStage::BeginTransaction => match outcome {
                Outcome::Succeeded => RequestOtpStage::DeletePrevious,
                Outcome::Failed(e) => RequestOtpStage::Finished(Err(ApiError::Database(e))),
            },
            RequestOtpStage::DeletePrevious => match outcome {
                Outcome::Succeeded => if self.issue.sweep_expired {
                    RequestOtpStage::SweepExpired
                } else {
                    RequestOtpStage::InsertCode
                },
                Outcome::Failed(e) => RequestOtpStage::Finished(Err(ApiError::Database(e))),
            },
            RequestOtpStage::InsertCode => match outcome {
                Outcome::Succeeded => RequestOtpStage::Commit,
                Outcome::Failed(e) => RequestOtpStage::Finished(Err(ApiError::Database(e))),
            },
            RequestOtpStage::Commit => match outcome {
                Outcome::Succeeded => RequestOtpStage::BuildMail,
                Outcome::Failed(e) => RequestOtpStage::Finished(Err(ApiError::Database(e))),
            },
        };
        self.stage = next;
        self.current_action()
    }
}

} // verus!
