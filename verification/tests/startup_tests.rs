use truehub_api::flows::startup::{startup_step, StartupAction, StartupEvent, StartupOutcome, StartupStage};
use truehub_api::result::ApiResult;
use truehub_api::store::accounts::{LoginMethod, SavedAccount, SavedServer};

fn server() -> SavedServer {
    SavedServer { id: "s1".into(), server_url: "wss://nas/api/current".into(), insecure: true, nickname: None, last_used: 0 }
}

fn account(method: LoginMethod, auto: bool) -> SavedAccount {
    SavedAccount {
        id: "a1".into(),
        server_id: "s1".into(),
        username: "admin".into(),
        login_method: method,
        last_used: 0,
        auto_login_enabled: auto,
    }
}

fn records(method: LoginMethod, auto: bool) -> StartupEvent {
    StartupEvent::RecordsLoaded { server: Some(server()), account: Some(account(method, auto)) }
}

#[test]
fn no_saved_server_needs_login() {
    let (stage, action) = startup_step(StartupStage::Begin, StartupEvent::Started { server_url: None });
    assert!(matches!(stage, StartupStage::Done));
    assert!(matches!(action, StartupAction::Finish(StartupOutcome::NeedsLogin)));
}

#[test]
fn stored_session_still_valid_is_ready() {
    let (st, a) = startup_step(StartupStage::Begin, StartupEvent::Started { server_url: Some("x".into()) });
    assert!(matches!(a, StartupAction::LoadSession));
    let (st, a) = startup_step(st, StartupEvent::SessionLoaded(Some(("s1".into(), "a1".into(), "old".into()))));
    assert!(matches!(a, StartupAction::LoadRecords { ref server_id, ref account_id } if server_id == "s1" && account_id == "a1"));
    let (st, a) = startup_step(st, records(LoginMethod::Password, false));
    assert!(matches!(a, StartupAction::Connect { ref server_url, insecure: true } if server_url == "wss://nas/api/current"));
    let (st, a) = startup_step(st, StartupEvent::ConnectFinished(true));
    assert!(matches!(a, StartupAction::LoginWithToken { ref token } if token == "old"));
    let (st, a) = startup_step(st, StartupEvent::LoginFinished(ApiResult::Success(true)));
    assert!(matches!(a, StartupAction::GenerateToken));
    let (st, a) = startup_step(st, StartupEvent::TokenFinished(ApiResult::Success("new".into())));
    assert!(matches!(a, StartupAction::SaveSession { ref token, .. } if token == "new"));
    let (st, a) = startup_step(st, StartupEvent::SessionSaved);
    assert!(matches!(st, StartupStage::Done));
    match a {
        StartupAction::Finish(StartupOutcome::Ready { token, username }) => {
            assert_eq!(token, "new");
            assert_eq!(username, "admin");
        }
        other => panic!("unexpected {other:?}"),
    }
}

#[test]
fn expired_session_falls_back_to_profile_with_api_key() {
    let st = StartupStage::AwaitTokenLogin { server_id: "s1".into(), account_id: "a1".into(), username: "admin".into() };
    let (st, a) = startup_step(st, StartupEvent::LoginFinished(ApiResult::Success(false)));
    assert!(matches!(a, StartupAction::LoadProfile));
    let (st, a) = startup_step(st, StartupEvent::ProfileLoaded(Some(("s1".into(), "a1".into()))));
    assert!(matches!(a, StartupAction::LoadRecords { .. }));
    let (st, a) = startup_step(st, records(LoginMethod::ApiKey, true));
    assert!(matches!(a, StartupAction::LoadCredentials { ref account_id, method: LoginMethod::ApiKey } if account_id == "a1"));
    let (st, a) = startup_step(st, StartupEvent::CredentialsLoaded(Some("key".into()), None));
    assert!(matches!(a, StartupAction::Connect { .. }));
    let (st, a) = startup_step(st, StartupEvent::ConnectFinished(true));
    assert!(matches!(a, StartupAction::LoginWithApiKey { ref key } if key == "key"));
    let (st, a) = startup_step(st, StartupEvent::LoginFinished(ApiResult::Success(true)));
    assert!(matches!(a, StartupAction::GenerateToken));
    let (st, a) = startup_step(st, StartupEvent::TokenFinished(ApiResult::Success("t2".into())));
    assert!(matches!(a, StartupAction::SaveSession { .. }));
    let (_, a) = startup_step(st, StartupEvent::SessionSaved);
    assert!(matches!(a, StartupAction::Finish(StartupOutcome::NeedsCredentialLogin { ref token, ref username }) if token == "t2" && username == "admin"));
}

#[test]
fn profile_without_auto_login_needs_login() {
    let st = StartupStage::AwaitProfileRecords { server_id: "s1".into(), account_id: "a1".into() };
    let (_, a) = startup_step(st, records(LoginMethod::Password, false));
    assert!(matches!(a, StartupAction::Finish(StartupOutcome::NeedsLogin)));
}

#[test]
fn password_profile_needs_both_secrets() {
    let st = StartupStage::AwaitProfileConnect {
        server_id: "s1".into(),
        account_id: "a1".into(),
        username: "admin".into(),
        method: LoginMethod::Password,
        first: Some("admin".into()),
        second: None,
    };
    let (_, a) = startup_step(st, StartupEvent::ConnectFinished(true));
    assert!(matches!(a, StartupAction::Finish(StartupOutcome::NeedsLogin)));
    let st = StartupStage::AwaitProfileConnect {
        server_id: "s1".into(),
        account_id: "a1".into(),
        username: "admin".into(),
        method: LoginMethod::Password,
        first: Some("admin".into()),
        second: Some("pw".into()),
    };
    let (_, a) = startup_step(st, StartupEvent::ConnectFinished(true));
    assert!(matches!(a, StartupAction::LoginWithPassword { ref username, ref password } if username == "admin" && password == "pw"));
}

#[test]
fn failed_connection_of_session_tries_profile_but_of_profile_gives_up() {
    let st = StartupStage::AwaitSessionConnect {
        server_id: "s".into(),
        account_id: "a".into(),
        token: "t".into(),
        username: "u".into(),
    };
    let (_, a) = startup_step(st, StartupEvent::ConnectFinished(false));
    assert!(matches!(a, StartupAction::LoadProfile));
    let st = StartupStage::AwaitProfileConnect {
        server_id: "s".into(),
        account_id: "a".into(),
        username: "u".into(),
        method: LoginMethod::ApiKey,
        first: Some("k".into()),
        second: None,
    };
    let (_, a) = startup_step(st, StartupEvent::ConnectFinished(false));
    assert!(matches!(a, StartupAction::Finish(StartupOutcome::NeedsLogin)));
}

#[test]
fn no_session_and_no_profile_needs_login() {
    let (st, a) = startup_step(StartupStage::AwaitSession, StartupEvent::SessionLoaded(None));
    assert!(matches!(a, StartupAction::LoadProfile));
    let (_, a) = startup_step(st, StartupEvent::ProfileLoaded(None));
    assert!(matches!(a, StartupAction::Finish(StartupOutcome::NeedsLogin)));
}

#[test]
fn unexpected_event_gives_up() {
    let (st, a) = startup_step(StartupStage::AwaitSession, StartupEvent::SessionSaved);
    assert!(matches!(st, StartupStage::Done));
    assert!(matches!(a, StartupAction::Finish(StartupOutcome::NeedsLogin)));
    let (_, a) = startup_step(StartupStage::Done, StartupEvent::ConnectFinished(true));
    assert!(matches!(a, StartupAction::Finish(StartupOutcome::NeedsLogin)));
}
