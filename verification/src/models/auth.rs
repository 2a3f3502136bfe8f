use vstd::prelude::*;
use std::collections::HashMap;

verus! {

/// The signed-in user, as `auth.me` describes it.
#[derive(Debug, Clone)]
pub struct AuthResponse {
    pub pw_name: Option<String>,
    pub pw_gecos: Option<String>,
    pub pw_dir: Option<String>,
    pub pw_shell: Option<String>,
    pub pw_uid: Option<u64>,
    pub pw_gid: Option<u64>,
    pub group_list: Option<Vec<String>>,
    pub sid: Option<String>,
    pub source: Option<String>,
    pub local: bool,
    pub attributes: Option<HashMap<String, serde_json::Value>>,
    pub two_factor_config: Option<HashMap<String, serde_json::Value>>,
    pub privilege: Option<HashMap<String, serde_json::Value>>,
    pub account_attributes: Vec<String>,
}

/// A request for an authentication token.
#[derive(Debug, Clone)]
pub struct TokenRequest {
    pub ttl: i32,
    pub attrs: HashMap<String, serde_json::Value>,
    pub match_origin: bool,
    pub single_use: bool,
}

impl Default for TokenRequest {
    fn default() -> (r: Self)
        ensures
            r.ttl == 6000,
            r.attrs@ == Map::<String, serde_json::Value>::empty(),
            r.match_origin,
            !r.single_use,
    {
        TokenRequest { ttl: 6000, attrs: HashMap::new(), match_origin: true, single_use: false }
    }
}

/// How a session was authenticated.
#[derive(Debug, Clone, PartialEq, Eq, Structural)]
pub enum Credentials {
    UnixSocket,
    LoginPassword,
    LoginTwofactor,
    LoginOnetimePassword,
    ApiKey,
    Token,
    TruenasNode,
}

#[derive(Debug, Clone)]
pub struct GenerateOneTimePasswordRequest {
    pub username: String,
}

/// The ways `auth.login_ex` signs in.
#[derive(Debug, Clone)]
pub enum LoginMechanism {
    PasswordPlain { username: String, password: String },
    ApiKeyPlain { username: String, api_key: String },
    AuthTokenPlain { token: String },
    OtpToken { otp_token: String },
}

/// How `auth.login_ex` answered.
#[derive(Debug, Clone)]
pub enum LoginExResult {
    Success { user_info: Option<AuthResponse>, authenticator: AuthenticatorLevel },
    OtpRequired { username: String },
    AuthErr,
    Expired,
    Redirect { urls: Vec<String> },
}

/// The strength of the authentication reached.
#[derive(Debug, Clone, PartialEq, Eq, Structural)]
pub enum AuthenticatorLevel {
    Level1,
    Level2,
}

/// One session of `auth.sessions`.
#[derive(Debug, Clone)]
pub struct AuthSessionResultItem {
    pub id: Option<String>,
    pub current: bool,
    pub internal: bool,
    pub origin: String,
    pub credentials: Credentials,
    pub credentials_data: Option<HashMap<String, serde_json::Value>>,
    pub secure_transport: bool,
}

} // verus!
