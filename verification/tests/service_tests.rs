use truehub_api::models::auth::{AuthResponse, AuthenticatorLevel, LoginExResult};
use truehub_api::result::ApiResult;
use truehub_api::services::auth::{interpret_login_ex, login_ex_result, login_option_names, LoginExReply};
use truehub_api::services::system::job_from_query;

fn reply(rt: Option<&str>) -> LoginExReply {
    LoginExReply {
        response_type: rt.map(String::from),
        authenticator: None,
        username: None,
        urls: None,
        user_info: None,
    }
}

fn user() -> AuthResponse {
    AuthResponse {
        pw_name: Some("root".into()),
        pw_gecos: None,
        pw_dir: None,
        pw_shell: None,
        pw_uid: Some(0),
        pw_gid: Some(0),
        group_list: None,
        sid: None,
        source: None,
        local: true,
        attributes: None,
        two_factor_config: None,
        privilege: None,
        account_attributes: vec![],
    }
}

#[test]
fn login_ex_success_levels() {
    let mut r = reply(Some("SUCCESS"));
    r.user_info = Some(user());
    match interpret_login_ex(r) {
        LoginExResult::Success { user_info, authenticator } => {
            assert_eq!(user_info.unwrap().pw_name.as_deref(), Some("root"));
            assert_eq!(authenticator, AuthenticatorLevel::Level1);
        }
        other => panic!("{other:?}"),
    }
    let mut r = reply(Some("SUCCESS"));
    r.authenticator = Some("LEVEL_2".into());
    assert!(matches!(interpret_login_ex(r), LoginExResult::Success { authenticator: AuthenticatorLevel::Level2, .. }));
    let mut r = reply(Some("SUCCESS"));
    r.authenticator = Some("LEVEL_3".into());
    assert!(matches!(interpret_login_ex(r), LoginExResult::Success { authenticator: AuthenticatorLevel::Level1, .. }));
}

#[test]
fn login_ex_other_answers() {
    let mut r = reply(Some("OTP_REQUIRED"));
    r.username = Some("admin".into());
    assert!(matches!(interpret_login_ex(r), LoginExResult::OtpRequired { ref username } if username == "admin"));
    assert!(matches!(interpret_login_ex(reply(Some("OTP_REQUIRED"))), LoginExResult::OtpRequired { ref username } if username.is_empty()));
    assert!(matches!(interpret_login_ex(reply(Some("EXPIRED"))), LoginExResult::Expired));
    let mut r = reply(Some("REDIRECT"));
    r.urls = Some(vec![Some("wss://a".into()), None, Some("wss://b".into())]);
    match interpret_login_ex(r) {
        LoginExResult::Redirect { urls } => assert_eq!(urls, ["wss://a", "wss://b"]),
        other => panic!("{other:?}"),
    }
    assert!(matches!(interpret_login_ex(reply(Some("REDIRECT"))), LoginExResult::Redirect { ref urls } if urls.is_empty()));
    assert!(matches!(interpret_login_ex(reply(Some("AUTH_ERR"))), LoginExResult::AuthErr));
    assert!(matches!(interpret_login_ex(reply(Some("weird"))), LoginExResult::AuthErr));
    assert!(matches!(interpret_login_ex(reply(None)), LoginExResult::AuthErr));
}

#[test]
fn login_ex_passes_failures_through() {
    assert!(matches!(login_ex_result(ApiResult::Loading), ApiResult::Loading));
    assert!(matches!(login_ex_result(ApiResult::Error { message: "x".into() }), ApiResult::Error { ref message } if message == "x"));
    assert!(matches!(login_ex_result(ApiResult::Success(reply(Some("EXPIRED")))), ApiResult::Success(LoginExResult::Expired)));
}

#[test]
fn login_options() {
    assert_eq!(login_option_names(true, true), ["user_info", "reconnect_token"]);
    assert_eq!(login_option_names(false, true), ["reconnect_token"]);
    assert!(login_option_names(false, false).is_empty());
}

#[test]
fn job_lookup() {
    assert!(matches!(job_from_query(ApiResult::Success(vec![1, 2, 3]), 7), ApiResult::Success(3)));
    match job_from_query::<i32>(ApiResult::Success(vec![]), 42) {
        ApiResult::Error { message } => assert_eq!(message, "Job 42 not found"),
        _ => panic!("expected error"),
    }
    match job_from_query::<i32>(ApiResult::Success(vec![]), -1) {
        ApiResult::Error { message } => assert_eq!(message, "Job -1 not found"),
        _ => panic!("expected error"),
    }
    assert!(matches!(job_from_query::<i32>(ApiResult::Loading, 1), ApiResult::Loading));
    assert!(matches!(job_from_query::<i32>(ApiResult::Error { message: "e".into() }, 1), ApiResult::Error { ref message } if message == "e"));
}
