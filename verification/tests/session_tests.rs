use dust_orbit::clock::Timestamp;
use dust_orbit::api::{AuthResponse, StatusReply};
use dust_orbit::secret_hash::hash_secret;
use dust_orbit::session::{plan_logout, RefreshAction, RefreshEvent, RefreshFlow, SessionRecord};
use uuid::Uuid;

const NOW: Timestamp = Timestamp { secs: 1_700_000_000, nanos: 0 };
const USER: u128 = 0x0199_a3c2_7c1e_7b2a_9f00_1234_5678_9abc;

#[test]
fn refresh_without_cookie_is_401() {
    let flow = RefreshFlow::start(None, "k".to_string());
    assert_eq!(
        flow.current_action(),
        RefreshAction::Respond(Err(StatusReply { status: 401, message: "No refresh token found".to_string() }))
    );
}

#[test]
fn refresh_happy_path() {
    let cookie = "0199a3c2-7c1f-7000-8000-000000000002";
    let mut flow = RefreshFlow::start(Some(cookie), "k".to_string());
    assert_eq!(flow.current_action(), RefreshAction::LookupSession { token_hash: hash_secret(cookie) });
    let session = SessionRecord { user_id: USER, username: "Player-3".to_string() };
    assert_eq!(
        flow.step_with(RefreshEvent::SessionLookedUp(Some(session)), NOW, Ok("new.jwt".to_string())),
        RefreshAction::Respond(Ok(AuthResponse {
            access_token: "new.jwt".to_string(),
            username: "Player-3".to_string(),
            message: "Token refreshed successfully".to_string(),
        }))
    );
}

#[test]
fn refresh_unknown_or_expired_session_is_401() {
    let mut flow = RefreshFlow::start(Some("whatever"), "k".to_string());
    assert_eq!(
        flow.step(RefreshEvent::SessionLookedUp(None)),
        RefreshAction::Respond(Err(StatusReply {
            status: 401,
            message: "Invalid or expired refresh token".to_string(),
        }))
    );
}

#[test]
fn refresh_failures_are_500() {
    let mut flow = RefreshFlow::start(Some("t"), "k".to_string());
    assert_eq!(
        flow.step_with(RefreshEvent::Failed("timeout".to_string()), NOW, Ok("unused".to_string())),
        RefreshAction::Respond(Err(StatusReply { status: 500, message: "timeout".to_string() }))
    );
    let mut flow = RefreshFlow::start(Some("t"), "k".to_string());
    let session = Some(SessionRecord { user_id: 1, username: "u".to_string() });
    assert_eq!(
        flow.step_with(RefreshEvent::SessionLookedUp(session), NOW, Err("bad key".to_string())),
        RefreshAction::Respond(Err(StatusReply { status: 500, message: "JWT Error: bad key".to_string() }))
    );
}

#[test]
fn refresh_step_signs_a_token_for_the_session_user() {
    let mut flow = RefreshFlow::start(Some("t"), "k".to_string());
    match flow.step(RefreshEvent::SessionLookedUp(Some(SessionRecord { user_id: USER, username: "u".to_string() }))) {
        RefreshAction::Respond(Ok(body)) => {
            assert_eq!(body.username, "u");
            assert_eq!(body.message, "Token refreshed successfully");
            let claims = decoded_claims(&body.access_token, "k");
            assert_eq!(claims["sub"], serde_json::Value::String(Uuid::from_u128(USER).to_string()));
            let exp = claims["exp"].as_u64().unwrap();
            assert!(exp > 1_700_000_000);
            assert!(decoded_claims_fail(&body.access_token, "other key"));
        }
        other => panic!("unexpected {:?}", other),
    }
}

fn validation() -> jsonwebtoken::Validation {
    let mut validation = jsonwebtoken::Validation::new(jsonwebtoken::Algorithm::HS256);
    validation.validate_exp = false;
    validation
}

fn decoded_claims(token: &str, key: &str) -> serde_json::Value {
    let key = jsonwebtoken::DecodingKey::from_secret(key.as_bytes());
    jsonwebtoken::decode::<serde_json::Value>(token, &key, &validation()).unwrap().claims
}

fn decoded_claims_fail(token: &str, key: &str) -> bool {
    let key = jsonwebtoken::DecodingKey::from_secret(key.as_bytes());
    jsonwebtoken::decode::<serde_json::Value>(token, &key, &validation()).is_err()
}

#[test]
fn logout_with_and_without_cookie() {
    let plan = plan_logout(Some("tok"));
    assert_eq!(plan.delete_token_hash, Some(hash_secret("tok")));
    assert_eq!(plan.removal.name, "refresh_token");
    assert_eq!(plan.removal.path, "/auth");
    assert_eq!(plan.removal.value, "");
    assert!(!plan.removal.http_only && !plan.removal.secure && !plan.removal.same_site_strict);
    assert_eq!(plan.removal.max_age_secs, None);
    assert_eq!(plan.message, "Logged out successfully");
    let plan = plan_logout(None);
    assert_eq!(plan.delete_token_hash, None);
    assert_eq!(plan.message, "Logged out successfully");
}
