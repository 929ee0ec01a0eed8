//! The authorization-code flow: URL building, code exchange, expiry.

use vkrs::auth::{
    AccessToken, Auth, AuthStage, OAuth, OAuthError, Permission, Permissions,
    OAUTH_DEFAULT_REDIRECT_URI, OAUTH_TOKEN_URL,
};
use vkrs::json::{DecodeError, Json};

fn obj(entries: Vec<(&str, Json)>) -> Json {
    Json::Obj(
        entries
            .into_iter()
            .map(|(k, v)| (k.to_owned(), v))
            .collect(),
    )
}

fn s(text: &str) -> Json {
    Json::Str(text.to_owned())
}

#[test]
fn auth_uri_carries_the_scope() {
    let oauth = OAuth::new("4242".to_owned(), "sekret".to_owned());
    let url = oauth.auth_uri(Permissions::from_flags(&[Permission::Audio]));
    assert!(url.contains("scope=audio"));
    assert_eq!(
        url,
        "https://oauth.vk.com/authorize?client_id=4242&redirect_uri=https%3A%2F%2Foauth.vk.com%2Fblank.html&display=page&scope=audio&response_type=code&v=5.44"
    );
}

#[test]
fn auth_uri_joins_scopes_with_encoded_comma() {
    let oauth = OAuth::new("id".to_owned(), "sec".to_owned());
    let url = oauth.auth_uri(Permissions::from_flags(&[
        Permission::Audio,
        Permission::Video,
    ]));
    assert!(url.contains("scope=audio%2Cvideo"));
}

#[test]
fn auth_uri_for_uses_the_request_scopes() {
    let oauth = OAuth::new("id".to_owned(), "sec".to_owned());
    let req = vkrs::api::Request::new("status.get".to_owned())
        .with_permissions(Permissions::from_flags(&[Permission::Status]));
    assert!(oauth.auth_uri_for(&req).contains("scope=status"));
}

#[test]
fn token_request_body_holds_the_four_parameters() {
    let oauth = OAuth::new("4242".to_owned(), "sekret".to_owned());
    assert_eq!(
        oauth.token_request_body("onetime"),
        "client_id=4242&client_secret=sekret&redirect_uri=https%3A%2F%2Foauth.vk.com%2Fblank.html&code=onetime"
    );
}

#[test]
fn exchange_success_yields_expiring_token() {
    let t0: i64 = 1_000;
    let body = obj(vec![
        ("access_token", s("abc123")),
        ("expires_in", Json::UInt(3600)),
        ("user_id", Json::UInt(42)),
    ]);
    let token = OAuth::parse_token_response(&body, t0).unwrap();
    assert_eq!(token.access_token(), "abc123");
    assert_eq!(token.user_id, 42);
    assert_eq!(token.email, None);
    assert_eq!(token.expires_at(), Some(t0 + 3600));
    assert!(!token.expired_at(t0 + 1));
    assert!(token.expired_at(t0 + 3601));
}

#[test]
fn exchange_success_with_email() {
    let body = obj(vec![
        ("access_token", s("abc")),
        ("expires_in", Json::UInt(10)),
        ("user_id", Json::UInt(7)),
        ("email", s("who@example.com")),
    ]);
    let token = OAuth::parse_token_response(&body, 0).unwrap();
    assert_eq!(token.email.as_deref(), Some("who@example.com"));
}

#[test]
fn non_positive_expiry_means_never_expires() {
    let body = obj(vec![
        ("access_token", s("abc")),
        ("expires_in", Json::UInt(0)),
        ("user_id", Json::UInt(7)),
    ]);
    let token = OAuth::parse_token_response(&body, 5_000).unwrap();
    assert_eq!(token.expires_at(), None);
    assert!(!token.expired_at(i64::MAX));
    assert!(!token.expired());
}

#[test]
fn structured_rejection_surfaces_error_and_description() {
    let body = obj(vec![
        ("error", s("invalid_grant")),
        ("error_description", s("Code is expired.")),
    ]);
    match OAuth::parse_token_response(&body, 0) {
        Err(OAuthError::Rejected { error, description }) => {
            assert_eq!(error, "invalid_grant");
            assert_eq!(description, "Code is expired.");
        }
        other => panic!("expected rejection, got {:?}", other),
    }
}

#[test]
fn malformed_token_body_is_a_decode_failure() {
    let body = obj(vec![("access_token", s("abc"))]);
    assert!(matches!(
        OAuth::parse_token_response(&body, 0),
        Err(OAuthError::Decode(DecodeError::TypeMismatch))
    ));
}

#[test]
fn wrongly_typed_expiry_is_a_decode_failure() {
    let body = obj(vec![
        ("access_token", s("abc")),
        ("expires_in", s("soon")),
        ("user_id", Json::UInt(7)),
    ]);
    assert!(matches!(
        OAuth::parse_token_response(&body, 0),
        Err(OAuthError::Decode(_))
    ));
}

#[test]
fn token_without_expiry_survives_any_clock() {
    let t = AccessToken::new("x".to_owned(), 1, None, None);
    assert!(!t.expired_at(0));
    assert!(!t.expired_at(i64::MAX));
}

#[test]
fn token_with_expiry_expires_exactly_at_the_instant() {
    let t = AccessToken::new("x".to_owned(), 1, None, Some(100));
    assert!(!t.expired_at(99));
    assert!(t.expired_at(100));
    assert!(t.expired_at(101));
}

#[test]
fn stage_assessment_follows_the_clock() {
    assert_eq!(AuthStage::assess(None, 0), AuthStage::Unauthenticated);
    let live = AccessToken::new("x".to_owned(), 1, None, Some(100));
    assert_eq!(
        AuthStage::assess(Some(live.clone()), 50),
        AuthStage::Authenticated(live.clone())
    );
    assert_eq!(
        AuthStage::assess(Some(live.clone()), 100),
        AuthStage::Expired(live)
    );
}

#[test]
fn expiry_leads_back_through_the_interactive_step() {
    let stale = AccessToken::new("x".to_owned(), 1, None, Some(10));
    let stage = AuthStage::assess(Some(stale), 20).begin_authorization();
    assert_eq!(stage, AuthStage::AwaitingUserCode);
    let fresh = AccessToken::new("y".to_owned(), 1, None, None);
    let stage = stage.complete_exchange(Ok(fresh.clone()));
    assert_eq!(stage, AuthStage::Authenticated(fresh));
}

#[test]
fn failed_exchange_keeps_waiting() {
    let stage = AuthStage::AwaitingUserCode
        .complete_exchange(Err(OAuthError::Transport("down".to_owned())));
    assert_eq!(stage, AuthStage::AwaitingUserCode);
}

#[test]
fn provider_description_is_fixed() {
    assert_eq!(Auth::auth_uri(), "https://oauth.vk.com/authorize");
    assert_eq!(Auth::token_uri(), OAUTH_TOKEN_URL);
    assert_eq!(OAUTH_TOKEN_URL, "https://oauth.vk.com/access_token");
    assert_eq!(OAUTH_DEFAULT_REDIRECT_URI, "https://oauth.vk.com/blank.html");
    assert!(Auth::credentials_in_body());
}

#[test]
fn oauth_new_takes_key_and_secret() {
    let oauth = OAuth::new("k".to_owned(), "s".to_owned());
    assert!(oauth.auth_uri(Permissions::new(0)).starts_with(
        "https://oauth.vk.com/authorize?client_id=k&"
    ));
}

#[test]
fn token_fields_survive_construction() {
    let t = AccessToken::new(
        "tok".to_owned(),
        9,
        Some("a@b.c".to_owned()),
        Some(123),
    );
    assert_eq!(t.access_token(), "tok");
    assert_eq!(t.user_id, 9);
    assert_eq!(t.email.as_deref(), Some("a@b.c"));
    assert_eq!(t.expires_at(), Some(123));
}
