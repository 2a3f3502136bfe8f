use truehub_api::flows::login::{
    connect_failure, is_api_key_mode, login_answer, login_prefs, login_records, login_step, login_success,
    token_answer, LoginAction, LoginEvent, LoginForm, LoginOutcome, LoginStage,
};
use truehub_api::result::ApiResult;
use truehub_api::store::accounts::LoginMethod;

fn error_text(o: Option<LoginOutcome>) -> String {
    match o {
        Some(LoginOutcome::Error(m)) => m,
        other => panic!("unexpected {other:?}"),
    }
}

#[test]
fn login_modes() {
    assert!(is_api_key_mode("apikey"));
    assert!(!is_api_key_mode("password"));
    assert!(!is_api_key_mode("APIKEY"));
}

#[test]
fn login_answers() {
    assert!(login_answer(ApiResult::Success(true)).is_none());
    assert_eq!(error_text(login_answer(ApiResult::Success(false))), "Invalid credentials");
    assert_eq!(error_text(login_answer(ApiResult::Error { message: "boom".into() })), "Login failed: boom");
    assert_eq!(error_text(login_answer(ApiResult::Loading)), "Unexpected state");
    assert!(matches!(connect_failure(), LoginOutcome::Error(ref m) if m == "Failed to connect to server"));
}

#[test]
fn token_answers() {
    assert!(matches!(token_answer(ApiResult::Success("t".into())), Ok(ref t) if t == "t"));
    assert!(matches!(token_answer(ApiResult::Error { message: "x".into() }), Err(LoginOutcome::Error(ref m)) if m == "Token error: x"));
    assert!(matches!(token_answer(ApiResult::Loading), Err(LoginOutcome::Error(ref m)) if m == "Unexpected token state"));
}

#[test]
fn records_of_an_api_key_login() {
    let r = login_records("wss://nas/api/current".into(), true, true, "ignored", "ignored", "KEY");
    assert_eq!(r.server.server_url, "wss://nas/api/current");
    assert!(r.server.insecure);
    assert_eq!(r.account.server_id, r.server.id);
    assert_eq!(r.account.username, "api_key_user");
    assert_eq!(r.account.login_method, LoginMethod::ApiKey);
    assert!(r.account.auto_login_enabled);
    assert_eq!(r.credentials, vec![("api_key".to_string(), "KEY".to_string())]);
    let ok = login_success(&r, "tok".into());
    assert!(matches!(ok, LoginOutcome::Success { ref token, ref username } if token == "tok" && username == "api_key_user"));
}

#[test]
fn records_of_a_password_login() {
    let r = login_records("wss://nas/api/current".into(), false, false, "admin", "pw", "");
    assert_eq!(r.account.username, "admin");
    assert_eq!(r.account.login_method, LoginMethod::Password);
    assert_eq!(
        r.credentials,
        vec![("username".to_string(), "admin".to_string()), ("password".to_string(), "pw".to_string())]
    );
    let p = login_prefs("wss://nas/api/current".into(), false);
    assert_eq!(p.server_url.as_deref(), Some("wss://nas/api/current"));
    assert!(!p.enable_debug_logging);
}

fn form(api_key_mode: bool) -> LoginForm {
    LoginForm {
        server_url: "wss://nas/api/current".to_string(),
        insecure: true,
        api_key_mode,
        username: "admin".to_string(),
        password: "pw".to_string(),
        api_key: "key".to_string(),
    }
}

#[test]
fn sign_in_steps_store_only_after_the_token() {
    let (stage, action) = login_step(LoginStage::Begin { form: form(false) }, LoginEvent::Started);
    match action {
        LoginAction::SavePrefs(p) => {
            assert_eq!(p.server_url.as_deref(), Some("wss://nas/api/current"));
            assert!(p.insecure && !p.enable_debug_logging);
        }
        other => panic!("unexpected {other:?}"),
    }
    let (stage, action) = login_step(stage, LoginEvent::PrefsSaved);
    assert!(matches!(action, LoginAction::Connect { ref server_url, insecure: true } if server_url == "wss://nas/api/current"));
    let (stage, action) = login_step(stage, LoginEvent::ConnectFinished(true));
    assert!(matches!(action, LoginAction::LoginWithPassword { ref username, ref password } if username == "admin" && password == "pw"));
    let (stage, action) = login_step(stage, LoginEvent::LoginFinished(ApiResult::Success(true)));
    assert!(matches!(action, LoginAction::GenerateToken));
    let (stage, action) = login_step(stage, LoginEvent::TokenFinished(ApiResult::Success("tok".to_string())));
    match action {
        LoginAction::Store { records, token } => {
            assert_eq!(token, "tok");
            assert_eq!(records.server.server_url, "wss://nas/api/current");
            assert_eq!(records.account.server_id, records.server.id);
            assert_eq!(records.account.username, "admin");
            assert_eq!(records.account.login_method, LoginMethod::Password);
            assert!(records.account.auto_login_enabled);
            assert_eq!(records.credentials.len(), 2);
        }
        other => panic!("unexpected {other:?}"),
    }
    let (stage, action) = login_step(stage, LoginEvent::RecordsStored);
    assert!(matches!(stage, LoginStage::Done));
    match action {
        LoginAction::Finish(LoginOutcome::Success { token, username }) => {
            assert_eq!(token, "tok");
            assert_eq!(username, "admin");
        }
        other => panic!("unexpected {other:?}"),
    }
}

#[test]
fn sign_in_steps_stop_at_each_failure() {
    let (_, action) = login_step(LoginStage::AwaitConnect { form: form(true) }, LoginEvent::ConnectFinished(false));
    assert!(matches!(action, LoginAction::Finish(LoginOutcome::Error(ref m)) if m == "Failed to connect to server"));

    let (_, action) = login_step(LoginStage::AwaitConnect { form: form(true) }, LoginEvent::ConnectFinished(true));
    assert!(matches!(action, LoginAction::LoginWithApiKey { ref key } if key == "key"));

    let (stage, action) =
        login_step(LoginStage::AwaitLogin { form: form(true) }, LoginEvent::LoginFinished(ApiResult::Success(false)));
    assert!(matches!(stage, LoginStage::Done));
    assert!(matches!(action, LoginAction::Finish(LoginOutcome::Error(ref m)) if m == "Invalid credentials"));

    let (_, action) = login_step(
        LoginStage::AwaitToken { form: form(true) },
        LoginEvent::TokenFinished(ApiResult::Error { message: "denied".to_string() }),
    );
    assert!(matches!(action, LoginAction::Finish(LoginOutcome::Error(ref m)) if m == "Token error: denied"));

    let (stage, action) = login_step(LoginStage::Done, LoginEvent::RecordsStored);
    assert!(matches!(stage, LoginStage::Done));
    assert!(matches!(action, LoginAction::Finish(LoginOutcome::Error(ref m)) if m == "Unexpected state"));
}
