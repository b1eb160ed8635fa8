use ticktick_today::auth::{
    AuthAction, AuthEvent, AuthFlow, AuthStage, DEFAULT_PORT, DEFAULT_TIMEOUT_SECS,
};
use ticktick_today::client::TickTickClient;
use ticktick_today::config::default_redirect_uri;
use ticktick_today::error::ClientError;
use ticktick_today::http::{Answer, Method};
use ticktick_today::types::TokenResponse;

fn client() -> TickTickClient {
    TickTickClient::new("id".to_string(), "secret".to_string(), default_redirect_uri())
}

fn flow() -> AuthFlow {
    AuthFlow::new("state123".to_string(), DEFAULT_PORT, DEFAULT_TIMEOUT_SECS)
}

fn token() -> TokenResponse {
    TokenResponse {
        access_token: "tok123".to_string(),
        token_type: "bearer".to_string(),
        expires_in: Some(3600),
        refresh_token: Some("ref456".to_string()),
        scope: "tasks:read".to_string(),
    }
}

fn token_answer() -> Answer<TokenResponse> {
    Answer {
        status: 200,
        body: r#"{"access_token":"tok123","token_type":"bearer","scope":"tasks:read"}"#.to_string(),
        decoded: Ok(token()),
    }
}

fn up_to_exchange(f: &mut AuthFlow, c: &TickTickClient) {
    f.advance(c, AuthEvent::Begin);
    f.advance(c, AuthEvent::Announced);
    f.advance(c, AuthEvent::Callback(Ok("abc123".to_string())));
    assert_eq!(f.current_stage(), AuthStage::Exchanging);
}

#[test]
fn the_defaults() {
    assert_eq!(DEFAULT_PORT, 8080);
    assert_eq!(DEFAULT_TIMEOUT_SECS, 300);
    assert_eq!(flow().current_stage(), AuthStage::Start);
}

#[test]
fn the_whole_flow() {
    let (mut f, c) = (flow(), client());
    let action = f.advance(&c, AuthEvent::Begin);
    assert_eq!(action, AuthAction::Announce { url: c.get_authorization_url("state123") });
    assert_eq!(f.current_stage(), AuthStage::Announcing);

    let action = f.advance(&c, AuthEvent::Announced);
    assert_eq!(action, AuthAction::Listen { port: 8080, timeout_secs: 300 });
    assert_eq!(f.current_stage(), AuthStage::Listening);

    let action = f.advance(&c, AuthEvent::Callback(Ok("abc123".to_string())));
    assert_eq!(action, AuthAction::Exchange(c.token_request("abc123")));
    match action {
        AuthAction::Exchange(request) => {
            assert_eq!(request.method, Method::Post);
            assert!(request.body.unwrap().contains("code=abc123"));
        }
        other => panic!("{:?}", other),
    }
    assert_eq!(f.current_stage(), AuthStage::Exchanging);

    let action = f.advance(&c, AuthEvent::Answered(token_answer()));
    assert_eq!(action, AuthAction::Persist(token()));
    assert_eq!(f.current_stage(), AuthStage::Saving);
    assert_eq!(c, client());

    let action = f.advance(&c, AuthEvent::Persisted(Ok(())));
    assert_eq!(action, AuthAction::Finish(Ok(())));
    assert_eq!(f.current_stage(), AuthStage::Done);

    let action = f.advance(&c, AuthEvent::Begin);
    assert_eq!(action, AuthAction::Finish(Ok(())));
    assert_eq!(f.current_stage(), AuthStage::Done);

    let authorized = c.with_token(token().access_token);
    assert_eq!(authorized.access_token.as_deref(), Some("tok123"));
}

#[test]
fn a_denied_authorization_ends_the_flow() {
    let (mut f, c) = (flow(), client());
    f.advance(&c, AuthEvent::Begin);
    f.advance(&c, AuthEvent::Announced);
    let denied = ClientError::AuthDenied("access_denied".to_string());
    let action = f.advance(&c, AuthEvent::Callback(Err(denied.clone())));
    assert_eq!(action, AuthAction::Finish(Err(denied)));
    assert_eq!(f.current_stage(), AuthStage::Failed);
}

#[test]
fn a_timeout_ends_the_flow() {
    let (mut f, c) = (flow(), client());
    f.advance(&c, AuthEvent::Begin);
    f.advance(&c, AuthEvent::Announced);
    let action = f.advance(&c, AuthEvent::Callback(Err(ClientError::AuthTimeout)));
    assert_eq!(action, AuthAction::Finish(Err(ClientError::AuthTimeout)));
    assert_eq!(f.current_stage(), AuthStage::Failed);
}

#[test]
fn a_refused_exchange_ends_the_flow() {
    let (mut f, c) = (flow(), client());
    up_to_exchange(&mut f, &c);
    let refused = Answer { status: 400, body: "invalid_grant".to_string(), decoded: Err(String::new()) };
    let action = f.advance(&c, AuthEvent::Answered(refused));
    assert_eq!(
        action,
        AuthAction::Finish(Err(ClientError::ExchangeFailed("invalid_grant".to_string())))
    );
    assert_eq!(f.current_stage(), AuthStage::Failed);
}

#[test]
fn a_failed_save_ends_the_flow() {
    let (mut f, c) = (flow(), client());
    up_to_exchange(&mut f, &c);
    f.advance(&c, AuthEvent::Answered(token_answer()));
    let action = f.advance(&c, AuthEvent::Persisted(Err("disk full".to_string())));
    assert_eq!(action, AuthAction::Finish(Err(ClientError::SaveFailed("disk full".to_string()))));
    assert_eq!(f.current_stage(), AuthStage::Failed);
}

#[test]
fn an_event_out_of_turn_ends_the_flow() {
    let (mut f, c) = (flow(), client());
    let action = f.advance(&c, AuthEvent::Announced);
    assert_eq!(action, AuthAction::Finish(Err(ClientError::AuthCancelled)));
    assert_eq!(f.current_stage(), AuthStage::Failed);
    let action = f.advance(&c, AuthEvent::Begin);
    assert_eq!(action, AuthAction::Finish(Err(ClientError::AuthCancelled)));
    assert_eq!(f.current_stage(), AuthStage::Failed);

    let (mut f, c) = (flow(), client());
    f.advance(&c, AuthEvent::Begin);
    let action = f.advance(&c, AuthEvent::Answered(token_answer()));
    assert_eq!(action, AuthAction::Finish(Err(ClientError::AuthCancelled)));
}
