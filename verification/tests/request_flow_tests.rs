use dust_orbit::clock::Timestamp;
use dust_orbit::api::{ApiError, StatusReply};
use dust_orbit::otp_request::{Outcome, RequestOtpAction, RequestOtpFlow, RequestOtpStage};
use dust_orbit::secret_hash::hash_secret;

const NOW: Timestamp = Timestamp { secs: 1_700_000_000, nanos: 0 };

fn body_for(code: &str) -> String {
    format!(
        "Hello Commander,\n\n\
        A login attempt was made for your Dust & Orbit account.\n\n\
        Your secure verification code is: {}\n\n\
        This code will expire in exactly 15 minutes. If you did not request this code, please ignore this email.\n\n\
        Safe travels,\n\
        The Dust & Orbit Server System\n\
        https://dust-and-orbit.allanbrunner.dev",
        code
    )
}

fn reply(status: u16, message: &str) -> StatusReply {
    StatusReply { status, message: message.to_string() }
}

#[test]
fn request_otp_happy_path_without_sweep() {
    let mut flow = RequestOtpFlow::with_draws("  Player@Example.com ", 42, false, NOW, None);
    assert_eq!(flow.issue.email, "player@example.com");
    assert_eq!(flow.issue.code, "000042");
    assert_eq!(flow.issue.code_hash, hash_secret("000042"));
    assert_eq!(flow.issue.expires_at, Timestamp { secs: 1_700_000_900, nanos: 0 });
    assert_eq!(flow.issue.sender, "dustandorbit@allanbrunner.dev");
    assert_eq!(flow.current_action(), RequestOtpAction::BeginTransaction);
    assert_eq!(
        flow.step(Outcome::Succeeded),
        RequestOtpAction::DeletePrevious { email: "player@example.com".to_string() }
    );
    assert_eq!(
        flow.step(Outcome::Succeeded),
        RequestOtpAction::InsertCode {
            email: "player@example.com".to_string(),
            code_hash: hash_secret("000042"),
            expires_at: Timestamp { secs: 1_700_000_900, nanos: 0 },
        }
    );
    assert_eq!(flow.step(Outcome::Succeeded), RequestOtpAction::Commit);
    assert_eq!(
        flow.step(Outcome::Succeeded),
        RequestOtpAction::BuildMail {
            from: "dustandorbit@allanbrunner.dev".to_string(),
            to: "player@example.com".to_string(),
            subject: "Dust & Orbit - Your login code".to_string(),
            body: body_for("000042"),
        }
    );
    assert_eq!(flow.step(Outcome::Succeeded), RequestOtpAction::SendMail);
    assert_eq!(
        flow.step(Outcome::Succeeded),
        RequestOtpAction::Respond(reply(200, "Otp sent successfully"))
    );
    assert_eq!(flow.stage, RequestOtpStage::Finished(Ok(())));
    assert_eq!(
        flow.step(Outcome::Failed("late".to_string())),
        RequestOtpAction::Respond(reply(200, "Otp sent successfully"))
    );
}

#[test]
fn request_otp_sweeps_when_drawn_and_ignores_its_result() {
    let mut flow = RequestOtpFlow::with_draws("a@b.c", 7, true, NOW, Some("noreply@orbit.test".to_string()));
    assert_eq!(flow.issue.sender, "noreply@orbit.test");
    flow.step(Outcome::Succeeded);
    assert_eq!(flow.step(Outcome::Succeeded), RequestOtpAction::SweepExpired);
    let after_sweep = flow.step(Outcome::Failed("sweep failed".to_string()));
    assert!(matches!(after_sweep, RequestOtpAction::InsertCode { .. }));
}

#[test]
fn request_otp_database_failures_end_with_500() {
    for failing_step in 0..4 {
        let mut flow = RequestOtpFlow::with_draws("a@b.c", 1, false, NOW, None);
        for _ in 0..failing_step {
            flow.step(Outcome::Succeeded);
        }
        let action = flow.step(Outcome::Failed("connection reset".to_string()));
        assert_eq!(action, RequestOtpAction::Respond(reply(500, "connection reset")));
        assert_eq!(
            flow.stage,
            RequestOtpStage::Finished(Err(ApiError::Database("connection reset".to_string())))
        );
    }
}

#[test]
fn request_otp_mail_failures() {
    let mut flow = RequestOtpFlow::with_draws("a@b.c", 1, false, NOW, None);
    for _ in 0..4 {
        flow.step(Outcome::Succeeded);
    }
    assert!(matches!(flow.current_action(), RequestOtpAction::BuildMail { .. }));
    assert_eq!(
        flow.step(Outcome::Failed("Invalid email".to_string())),
        RequestOtpAction::Respond(reply(500, "Failed to build email: Invalid email"))
    );

    let mut flow = RequestOtpFlow::with_draws("a@b.c", 1, false, NOW, None);
    for _ in 0..5 {
        flow.step(Outcome::Succeeded);
    }
    assert_eq!(flow.current_action(), RequestOtpAction::SendMail);
    assert_eq!(
        flow.step(Outcome::Failed("smtp down".to_string())),
        RequestOtpAction::Respond(reply(500, "Failed to send email. Please try again later."))
    );
}

#[test]
fn request_otp_start_draws_a_code() {
    let flow = RequestOtpFlow::start("Someone@Example.org", None);
    assert_eq!(flow.issue.email, "someone@example.org");
    assert_eq!(flow.issue.code.len(), 6);
    assert!(flow.issue.code.chars().all(|c| c.is_ascii_digit()));
    assert_eq!(flow.issue.code_hash, hash_secret(&flow.issue.code));
    assert!(flow.issue.expires_at.secs > 1_600_000_000);
    assert!(flow.issue.expires_at.nanos < 1_000_000_000);
    assert_eq!(flow.stage, RequestOtpStage::BeginTransaction);
}

#[test]
fn request_otp_sweeps_about_one_time_in_twenty() {
    let mut sweeps = 0;
    for _ in 0..4000 {
        if RequestOtpFlow::start("a@b.c", None).issue.sweep_expired {
            sweeps += 1;
        }
    }
    assert!(sweeps > 100 && sweeps < 320, "{}", sweeps);
}
