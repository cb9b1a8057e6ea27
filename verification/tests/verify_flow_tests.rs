use dust_orbit::clock::Timestamp;
use dust_orbit::api::{ApiError, AuthResponse, CookieSpec, StatusReply};
use dust_orbit::ids::format_uuid;
use dust_orbit::otp_verify::{
    OtpRecord, UserRecord, VerifyOtpAction, VerifyOtpEvent, VerifyOtpFlow, VerifyOtpStage,
    VerifyReply,
};
use dust_orbit::secret_hash::hash_secret;
use uuid::Uuid;

const NOW: Timestamp = Timestamp { secs: 1_700_000_000, nanos: 500_000_000 };
const USER: u128 = 0x0199_a3c2_7c1e_7b2a_9f00_1234_5678_9abc;
const SESSION: u128 = 0x0199_a3c2_7c1f_7000_8000_0000_0000_0001;
const TOKEN: u128 = 0x0199_a3c2_7c1f_7000_8000_0000_0000_0002;

fn new_flow() -> VerifyOtpFlow {
    VerifyOtpFlow::start(" Pilot@Orbit.dev ", " 123456\n", "k3y".to_string(), Some("ua/1".to_string()))
}

/// What a step that signs no token is handed in place of a signing result.
fn no_token() -> Result<String, String> {
    Err(String::new())
}

fn user() -> UserRecord {
    UserRecord { id: USER, username: "Player-12".to_string() }
}

#[test]
fn verify_otp_existing_user_happy_path() {
    let mut flow = new_flow();
    assert_eq!(
        flow.current_action(),
        VerifyOtpAction::LookupCode {
            email: "pilot@orbit.dev".to_string(),
            code_hash: hash_secret("123456"),
        }
    );
    let found = Some(OtpRecord { id: 9, expires_at: Timestamp { secs: NOW.secs, nanos: NOW.nanos + 1 } });
    assert_eq!(
        flow.step_with(VerifyOtpEvent::CodeLookedUp(found), NOW, 0, 0, no_token()),
        VerifyOtpAction::DeleteCode { otp_id: 9 }
    );
    assert_eq!(
        flow.step_with(VerifyOtpEvent::Succeeded, NOW, 0, 0, no_token()),
        VerifyOtpAction::LookupUser { email: "pilot@orbit.dev".to_string() }
    );
    assert_eq!(
        flow.step_with(VerifyOtpEvent::UserLookedUp(Some(user())), NOW, SESSION, TOKEN, Ok("jwt.token.here".to_string())),
        VerifyOtpAction::StoreSession {
            session_id: SESSION,
            user_id: USER,
            token_hash: hash_secret(&Uuid::from_u128(TOKEN).to_string()),
            expires_at: Timestamp { secs: NOW.secs + 2_592_000, nanos: NOW.nanos },
            user_agent: Some("ua/1".to_string()),
        }
    );
    let answer = flow.step_with(VerifyOtpEvent::Succeeded, NOW, 0, 0, no_token());
    assert_eq!(
        answer,
        VerifyOtpAction::Respond(Ok(VerifyReply {
            cookie: CookieSpec {
                name: "refresh_token".to_string(),
                value: Uuid::from_u128(TOKEN).to_string(),
                http_only: true,
                secure: true,
                same_site_strict: true,
                path: "/auth".to_string(),
                max_age_secs: Some(2_592_000),
            },
            body: AuthResponse {
                access_token: "jwt.token.here".to_string(),
                username: "Player-12".to_string(),
                message: "Authentication successful".to_string(),
            },
        }))
    );
}

#[test]
fn verify_otp_creates_missing_user() {
    let mut flow = new_flow();
    flow.step_with(VerifyOtpEvent::CodeLookedUp(Some(OtpRecord { id: 1, expires_at: NOW })), NOW, 0, 0, no_token());
    flow.step_with(VerifyOtpEvent::Succeeded, NOW, 0, 0, no_token());
    assert_eq!(
        flow.step_with(VerifyOtpEvent::UserLookedUp(None), NOW, USER, 0, no_token()),
        VerifyOtpAction::CreateUser { user_id: USER, email: "pilot@orbit.dev".to_string() }
    );
    let next = flow.step_with(VerifyOtpEvent::UserCreated(user()), NOW, SESSION, TOKEN, Ok("jwt".to_string()));
    assert!(matches!(next, VerifyOtpAction::StoreSession { session_id: SESSION, user_id: USER, .. }));
}

#[test]
fn verify_otp_new_user_gets_a_version_7_id() {
    let mut flow = new_flow();
    flow.step_with(VerifyOtpEvent::CodeLookedUp(Some(OtpRecord { id: 1, expires_at: Timestamp { secs: i64::MAX, nanos: 0 } })), NOW, 0, 0, no_token());
    flow.step_with(VerifyOtpEvent::Succeeded, NOW, 0, 0, no_token());
    match flow.step(VerifyOtpEvent::UserLookedUp(None)) {
        VerifyOtpAction::CreateUser { user_id, .. } => {
            assert_eq!(Uuid::from_u128(user_id).get_version_num(), 7);
        }
        other => panic!("unexpected action {:?}", other),
    }
}

#[test]
fn verify_otp_fresh_session_ids_differ() {
    let mut flow = new_flow();
    flow.step_with(VerifyOtpEvent::CodeLookedUp(Some(OtpRecord { id: 1, expires_at: Timestamp { secs: i64::MAX, nanos: 0 } })), NOW, 0, 0, no_token());
    flow.step_with(VerifyOtpEvent::Succeeded, NOW, 0, 0, no_token());
    match flow.step(VerifyOtpEvent::UserLookedUp(Some(user()))) {
        VerifyOtpAction::StoreSession { session_id, token_hash, .. } => {
            assert_eq!(Uuid::from_u128(session_id).get_version_num(), 7);
            match &flow.stage {
                VerifyOtpStage::StoreSession { token_id, .. } => {
                    assert_ne!(*token_id, session_id);
                    assert_eq!(token_hash, hash_secret(&format_uuid(*token_id)));
                }
                other => panic!("unexpected stage {:?}", other),
            }
        }
        other => panic!("unexpected action {:?}", other),
    }
}

#[test]
fn verify_otp_unknown_code_is_401() {
    let mut flow = new_flow();
    assert_eq!(
        flow.step_with(VerifyOtpEvent::CodeLookedUp(None), NOW, 0, 0, no_token()),
        VerifyOtpAction::Respond(Err(StatusReply { status: 401, message: "Invalid OTP".to_string() }))
    );
}

#[test]
fn verify_otp_expired_code_is_401_and_boundary_is_still_valid() {
    let mut flow = new_flow();
    assert_eq!(
        flow.step_with(VerifyOtpEvent::CodeLookedUp(Some(OtpRecord { id: 3, expires_at: Timestamp { secs: NOW.secs, nanos: NOW.nanos - 1 } })), NOW, 0, 0, no_token()),
        VerifyOtpAction::Respond(Err(StatusReply { status: 401, message: "OTP has expired".to_string() }))
    );
    let mut flow = new_flow();
    assert_eq!(
        flow.step_with(VerifyOtpEvent::CodeLookedUp(Some(OtpRecord { id: 3, expires_at: NOW })), NOW, 0, 0, no_token()),
        VerifyOtpAction::DeleteCode { otp_id: 3 }
    );
}

#[test]
fn verify_otp_failures_are_500() {
    let mut flow = new_flow();
    assert_eq!(
        flow.step_with(VerifyOtpEvent::Failed("db gone".to_string()), NOW, 0, 0, no_token()),
        VerifyOtpAction::Respond(Err(StatusReply { status: 500, message: "db gone".to_string() }))
    );
    let mut flow = new_flow();
    flow.step_with(VerifyOtpEvent::CodeLookedUp(Some(OtpRecord { id: 1, expires_at: NOW })), NOW, 0, 0, no_token());
    flow.step_with(VerifyOtpEvent::Succeeded, NOW, 0, 0, no_token());
    assert_eq!(
        flow.step_with(VerifyOtpEvent::UserLookedUp(Some(user())), NOW, 0, 0, Err("InvalidKeyFormat".to_string())),
        VerifyOtpAction::Respond(Err(StatusReply {
            status: 500,
            message: "JWT Error: InvalidKeyFormat".to_string(),
        }))
    );
    assert_eq!(
        flow.stage,
        VerifyOtpStage::Finished(Err(ApiError::TokenNotSigned("InvalidKeyFormat".to_string())))
    );
}

#[test]
fn verify_otp_ignores_an_event_that_answers_nothing_awaited() {
    let mut flow = new_flow();
    let before = flow.current_action();
    assert_eq!(flow.step_with(VerifyOtpEvent::Succeeded, NOW, 0, 0, no_token()), before);
    assert_eq!(flow.stage, VerifyOtpStage::LookupCode);
}

#[test]
fn verify_otp_step_reads_the_clock() {
    let mut flow = new_flow();
    let far_future = Some(OtpRecord { id: 5, expires_at: Timestamp { secs: i64::MAX, nanos: 0 } });
    assert_eq!(flow.step(VerifyOtpEvent::CodeLookedUp(far_future)), VerifyOtpAction::DeleteCode { otp_id: 5 });
    let mut flow = new_flow();
    let long_ago = Some(OtpRecord { id: 5, expires_at: Timestamp { secs: 1_000, nanos: 0 } });
    assert!(matches!(flow.step(VerifyOtpEvent::CodeLookedUp(long_ago)), VerifyOtpAction::Respond(Err(_))));
}
