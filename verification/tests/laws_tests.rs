use dust_orbit::clock::Timestamp;
use dust_orbit::otp_request::{Outcome, RequestOtpAction, RequestOtpFlow};
use dust_orbit::otp_verify::{OtpRecord, UserRecord, VerifyOtpAction, VerifyOtpEvent, VerifyOtpFlow};
use dust_orbit::session::{plan_logout, RefreshAction, RefreshFlow};

const NOW: Timestamp = Timestamp { secs: 1_700_000_000, nanos: 0 };

#[test]
fn typed_back_code_finds_the_stored_code() {
    let mut request = RequestOtpFlow::with_draws("Pilot@Orbit.dev", 31337, false, NOW, None);
    request.step(Outcome::Succeeded);
    let stored = request.step(Outcome::Succeeded);
    let (stored_email, stored_hash) = match stored {
        RequestOtpAction::InsertCode { email, code_hash, .. } => (email, code_hash),
        other => panic!("unexpected {:?}", other),
    };
    let typed = format!("\u{a0} {}\t\n", request.issue.code);
    let login = VerifyOtpFlow::start("  pilot@orbit.DEV", &typed, "k".to_string(), None);
    assert_eq!(
        login.current_action(),
        VerifyOtpAction::LookupCode { email: stored_email, code_hash: stored_hash }
    );
}

#[test]
fn refresh_cookie_names_the_stored_session() {
    let mut login = VerifyOtpFlow::start("a@b.c", "000001", "k".to_string(), None);
    login.step_with(VerifyOtpEvent::CodeLookedUp(Some(OtpRecord { id: 1, expires_at: NOW })), NOW, 0, 0, Err(String::new()));
    login.step_with(VerifyOtpEvent::Succeeded, NOW, 0, 0, Err(String::new()));
    let stored_hash = match login.step(VerifyOtpEvent::UserLookedUp(Some(UserRecord { id: 7, username: "u".to_string() }))) {
        VerifyOtpAction::StoreSession { token_hash, .. } => token_hash,
        other => panic!("unexpected {:?}", other),
    };
    let cookie_value = match login.step(VerifyOtpEvent::Succeeded) {
        VerifyOtpAction::Respond(Ok(reply)) => reply.cookie.value,
        other => panic!("unexpected {:?}", other),
    };
    let refresh = RefreshFlow::start(Some(&cookie_value), "k".to_string());
    assert_eq!(refresh.current_action(), RefreshAction::LookupSession { token_hash: stored_hash.clone() });
    assert_eq!(plan_logout(Some(&cookie_value)).delete_token_hash, Some(stored_hash));
}

#[test]
fn request_flow_finishes_within_seven_answers() {
    let mut flow = RequestOtpFlow::with_draws("a@b.c", 1, true, NOW, None);
    let mut answers = 0;
    while !matches!(flow.current_action(), RequestOtpAction::Respond(_)) {
        flow.step(Outcome::Succeeded);
        answers += 1;
    }
    assert_eq!(answers, 7);
}
