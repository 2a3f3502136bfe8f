use vstd::prelude::*;
use crate::result::ApiResult;
use crate::store::accounts::{LoginMethod, SavedAccount, SavedServer, planned_writes, pair_views,
    credential_writes, is_uuid_text};
use crate::store::prefs::AppPrefs;
use crate::text::str_eq;

verus! {

/// How a sign-in from the login screen ended.
#[derive(Debug)]
pub enum LoginOutcome {
    Success { token: String, username: String },
    Error(String),
}

pub open spec fn api_key_mode_name() -> Seq<char> {
    seq!['a', 'p', 'i', 'k', 'e', 'y']
}

pub open spec fn api_key_user_name() -> Seq<char> {
    seq!['a', 'p', 'i', '_', 'k', 'e', 'y', '_', 'u', 's', 'e', 'r']
}

/// Whether the login screen is on its API key page.
pub fn is_api_key_mode(mode: &str) -> (b: bool)
    ensures
        b == (mode@ == api_key_mode_name()),
{
    proof { reveal_strlit("apikey"); }
    assert("apikey"@ =~= api_key_mode_name());
    str_eq(mode, "apikey")
}

/// The preferences kept after a sign-in attempt: the address and the
/// certificate choice, without debug logging.
pub fn login_prefs(server_url: String, insecure: bool) -> (p: AppPrefs)
    ensures
        p.server_url == Some(server_url),
        p.insecure == insecure,
        !p.enable_debug_logging,
{
    AppPrefs { server_url: Some(server_url), insecure, enable_debug_logging: false }
}

fn message_with(prefix: &str, detail: &str) -> (r: String)
    ensures
        r@ == prefix@ + detail@,
{
    let mut out = String::new();
    out.append(prefix);
    out.append(detail);
    out
}

fn message(text: &str) -> (r: String)
    ensures
        r@ == text@,
{
    let mut out = String::new();
    out.append(text);
    assert(out@ =~= text@);
    out
}

/// The outcome when no connection could be made.
pub fn connect_failure() -> (o: LoginOutcome)
    ensures
        o matches LoginOutcome::Error(m) && m@ == "Failed to connect to server"@,
{
    LoginOutcome::Error(message("Failed to connect to server"))
}

/// What the answer to the login call means: `None` when it succeeded and the
/// sign-in goes on, else the error the screen shows.
pub fn login_answer(result: ApiResult<bool>) -> (o: Option<LoginOutcome>)
    ensures
        match result {
            ApiResult::Success(true) => o is None,
            ApiResult::Success(false) =>
                o matches Some(LoginOutcome::Error(m)) && m@ == "Invalid credentials"@,
            ApiResult::Error { message } =>
                o matches Some(LoginOutcome::Error(m)) && m@ == "Login failed: "@ + message@,
            ApiResult::Loading =>
                o matches Some(LoginOutcome::Error(m)) && m@ == "Unexpected state"@,
        },
{
    match result {
        ApiResult::Success(true) => None,
        ApiResult::Success(false) => Some(LoginOutcome::Error(message("Invalid credentials"))),
        ApiResult::Error { message: m } => Some(LoginOutcome::Error(message_with("Login failed: ", m.as_str()))),
        ApiResult::Loading => Some(LoginOutcome::Error(message("Unexpected state"))),
    }
}

/// What the answer to the token request means: the token, or the error the
/// screen shows.
pub fn token_answer(result: ApiResult<String>) -> (r: Result<String, LoginOutcome>)
    ensures
        match result {
            ApiResult::Success(t) => r == Ok::<String, LoginOutcome>(t),
            ApiResult::Error { message } =>
                r matches Err(LoginOutcome::Error(m)) && m@ == "Token error: "@ + message@,
            ApiResult::Loading =>
                r matches Err(LoginOutcome::Error(m)) && m@ == "Unexpected token state"@,
        },
{
    match result {
        ApiResult::Success(t) => Ok(t),
        ApiResult::Error { message: m } => Err(LoginOutcome::Error(message_with("Token error: ", m.as_str()))),
        ApiResult::Loading => Err(LoginOutcome::Error(message("Unexpected token state"))),
    }
}

/// What a successful sign-in stores: a new server record, a new account on
/// it with auto login, and the secrets to keep for that account.
#[derive(Debug)]
pub struct LoginRecords {
    pub server: SavedServer,
    pub account: SavedAccount,
    pub credentials: Vec<(String, String)>,
}

/// The records of a successful sign-in. An API key sign-in is kept as the
/// account `api_key_user` with its key; a password sign-in as the user with
/// the user name and the password.
pub fn login_records(
    server_url: String,
    insecure: bool,
    api_key_mode: bool,
    username: &str,
    password: &str,
    api_key: &str,
) -> (r: LoginRecords)
    ensures
        r.server.server_url == server_url,
        r.server.insecure == insecure,
        r.server.nickname is None,
        is_uuid_text(r.server.id@),
        is_uuid_text(r.account.id@),
        r.account.server_id == r.server.id,
        r.account.username@ == (if api_key_mode { api_key_user_name() } else { username@ }),
        r.account.login_method == (if api_key_mode { LoginMethod::ApiKey } else { LoginMethod::Password }),
        r.account.auto_login_enabled,
        pair_views(r.credentials@) == (if api_key_mode {
            planned_writes(LoginMethod::ApiKey, Some(api_key@), None, None)
        } else {
            planned_writes(LoginMethod::Password, None, Some(username@), Some(password@))
        }),
{
    let server = SavedServer::new(server_url, insecure, None);
    let method = if api_key_mode { LoginMethod::ApiKey } else { LoginMethod::Password };
    let account_username = if api_key_mode {
        proof { reveal_strlit("api_key_user"); }
        assert("api_key_user"@ =~= api_key_user_name());
        message("api_key_user")
    } else {
        message(username)
    };
    let mut account = SavedAccount::new(server.id.clone(), account_username, method.clone());
    account.auto_login_enabled = true;
    let credentials = if api_key_mode {
        credential_writes(&method, Some(api_key), None, None)
    } else {
        credential_writes(&method, None, Some(username), Some(password))
    };
    LoginRecords { server, account, credentials }
}

/// The outcome of a sign-in whose records were stored.
pub fn login_success(records: &LoginRecords, token: String) -> (o: LoginOutcome)
    ensures
        o == (LoginOutcome::Success { token, username: records.account.username }),
{
    LoginOutcome::Success { token, username: records.account.username.clone() }
}

/// What the user entered on the sign-in page.
#[derive(Debug)]
pub struct LoginForm {
    pub server_url: String,
    pub insecure: bool,
    pub api_key_mode: bool,
    pub username: String,
    pub password: String,
    pub api_key: String,
}

/// How far a sign-in has come: what it waits for.
#[derive(Debug)]
pub enum LoginStage {
    Begin { form: LoginForm },
    AwaitPrefsSaved { form: LoginForm },
    AwaitConnect { form: LoginForm },
    AwaitLogin { form: LoginForm },
    AwaitToken { form: LoginForm },
    AwaitStored { token: String, username: String },
    Done,
}

/// What came back from the last action of a sign-in.
#[derive(Debug)]
pub enum LoginEvent {
    /// The user pressed the sign-in button.
    Started,
    /// The preferences were written (whatever the store answered).
    PrefsSaved,
    /// Whether the connection to the server was made.
    ConnectFinished(bool),
    /// The answer to the login call.
    LoginFinished(ApiResult<bool>),
    /// The answer to the token request.
    TokenFinished(ApiResult<String>),
    /// The records were stored (whatever the stores answered).
    RecordsStored,
}

/// What the sign-in page is to do next.
#[derive(Debug)]
pub enum LoginAction {
    /// Write these preferences.
    SavePrefs(AppPrefs),
    /// Connect to the server.
    Connect { server_url: String, insecure: bool },
    LoginWithApiKey { key: String },
    LoginWithPassword { username: String, password: String },
    GenerateToken,
    /// Store the server, the account, its secrets, the session with `token`
    /// and the last used profile.
    Store { records: LoginRecords, token: String },
    Finish(LoginOutcome),
}

/// Whether the action ends the sign-in with the error text `m`.
pub open spec fn finishes_with_error(a: LoginAction, m: Seq<char>) -> bool {
    a matches LoginAction::Finish(LoginOutcome::Error(x)) && x@ == m
}

/// The error shown for a login answer other than `Success(true)`.
pub open spec fn login_failure_text(r: ApiResult<bool>) -> Seq<char> {
    match r {
        ApiResult::Success(_) => "Invalid credentials"@,
        ApiResult::Error { message } => "Login failed: "@ + message@,
        ApiResult::Loading => "Unexpected state"@,
    }
}

/// The error shown for a token answer other than a token.
pub open spec fn token_failure_text(r: ApiResult<String>) -> Seq<char> {
    match r {
        ApiResult::Success(_) => Seq::empty(),
        ApiResult::Error { message } => "Token error: "@ + message@,
        ApiResult::Loading => "Unexpected token state"@,
    }
}

/// The login call for the form: with the API key, or with the user name and password.
pub open spec fn login_request(form: LoginForm) -> LoginAction {
    if form.api_key_mode {
        LoginAction::LoginWithApiKey { key: form.api_key }
    } else {
        LoginAction::LoginWithPassword { username: form.username, password: form.password }
    }
}

/// Whether `r` are the records of a successful sign-in with `form`.
pub open spec fn records_for(form: LoginForm, r: LoginRecords) -> bool {
    &&& r.server.server_url == form.server_url
    &&& r.server.insecure == form.insecure
    &&& r.server.nickname is None
    &&& is_uuid_text(r.server.id@)
    &&& is_uuid_text(r.account.id@)
    &&& r.account.server_id == r.server.id
    &&& r.account.username@ == (if form.api_key_mode { api_key_user_name() } else { form.username@ })
    &&& r.account.login_method == (if form.api_key_mode { LoginMethod::ApiKey } else { LoginMethod::Password })
    &&& r.account.auto_login_enabled
    &&& pair_views(r.credentials@) == (if form.api_key_mode {
        planned_writes(LoginMethod::ApiKey, Some(form.api_key@), None, None)
    } else {
        planned_writes(LoginMethod::Password, None, Some(form.username@), Some(form.password@))
    })
}

/// One step of a sign-in: save the preferences, connect, log in, ask for a
/// token, store the records with that token, and finish; any failure ends it
/// with the error the page shows.
pub open spec fn login_step_meaning(stage: LoginStage, event: LoginEvent, r: (LoginStage, LoginAction)) -> bool {
    match (stage, event) {
        (LoginStage::Begin { form }, LoginEvent::Started) => {
            &&& r.0 == (LoginStage::AwaitPrefsSaved { form })
            &&& r.1 == LoginAction::SavePrefs(
                (AppPrefs { server_url: Some(form.server_url), insecure: form.insecure, enable_debug_logging: false }),
            )
        },
        (LoginStage::AwaitPrefsSaved { form }, LoginEvent::PrefsSaved) => r == (
            LoginStage::AwaitConnect { form },
            LoginAction::Connect { server_url: form.server_url, insecure: form.insecure },
        ),
        (LoginStage::AwaitConnect { form }, LoginEvent::ConnectFinished(ok)) => if ok {
            r == (LoginStage::AwaitLogin { form }, login_request(form))
        } else {
            r.0 is Done && finishes_with_error(r.1, "Failed to connect to server"@)
        },
        (LoginStage::AwaitLogin { form }, LoginEvent::LoginFinished(res)) => if res == ApiResult::<bool>::Success(true) {
            r == (LoginStage::AwaitToken { form }, LoginAction::GenerateToken)
        } else {
            r.0 is Done && finishes_with_error(r.1, login_failure_text(res))
        },
        (LoginStage::AwaitToken { form }, LoginEvent::TokenFinished(res)) => match res {
            ApiResult::Success(t) => {
                &&& r.1 matches LoginAction::Store { records, token }
                &&& r.1->token == t
                &&& records_for(form, r.1->records)
                &&& r.0 == (LoginStage::AwaitStored { token: t, username: r.1->records.account.username })
            },
            _ => r.0 is Done && finishes_with_error(r.1, token_failure_text(res)),
        },
        (LoginStage::AwaitStored { token, username }, LoginEvent::RecordsStored) => r == (
            LoginStage::Done,
            LoginAction::Finish(LoginOutcome::Success { token, username }),
        ),
        _ => r.0 is Done && finishes_with_error(r.1, "Unexpected state"@),
    }
}

/// An event that does not belong to the stage ends the sign-in.
fn unexpected_step() -> (r: (LoginStage, LoginAction))
    ensures
        r.0 is Done,
        finishes_with_error(r.1, "Unexpected state"@),
{
    (LoginStage::Done, LoginAction::Finish(LoginOutcome::Error(message("Unexpected state"))))
}

/// The next stage of a sign-in and what to do for it.
pub fn login_step(stage: LoginStage, event: LoginEvent) -> (r: (LoginStage, LoginAction))
    ensures
        login_step_meaning(stage, event, r),
{
    match stage {
        LoginStage::Begin { form } => match event {
            LoginEvent::Started => {
                let prefs = login_prefs(form.server_url.clone(), form.insecure);
                (LoginStage::AwaitPrefsSaved { form }, LoginAction::SavePrefs(prefs))
            },
            _ => unexpected_step(),
        },
        LoginStage::AwaitPrefsSaved { form } => match event {
            LoginEvent::PrefsSaved => {
                let server_url = form.server_url.clone();
                let insecure = form.insecure;
                (LoginStage::AwaitConnect { form }, LoginAction::Connect { server_url, insecure })
            },
            _ => unexpected_step(),
        },
        LoginStage::AwaitConnect { form } => match event {
            LoginEvent::ConnectFinished(ok) => {
                if ok {
                    let action = if form.api_key_mode {
                        LoginAction::LoginWithApiKey { key: form.api_key.clone() }
                    } else {
                        LoginAction::LoginWithPassword { username: form.username.clone(), password: form.password.clone() }
                    };
                    (LoginStage::AwaitLogin { form }, action)
                } else {
                    (LoginStage::Done, LoginAction::Finish(connect_failure()))
                }
            },
            _ => unexpected_step(),
        },
        LoginStage::AwaitLogin { form } => match event {
            LoginEvent::LoginFinished(res) => match login_answer(res) {
                None => (LoginStage::AwaitToken { form }, LoginAction::GenerateToken),
                Some(o) => (LoginStage::Done, LoginAction::Finish(o)),
            },
            _ => unexpected_step(),
        },
        LoginStage::AwaitToken { form } => match event {
            LoginEvent::TokenFinished(res) => match token_answer(res) {
                Ok(token) => {
                    let records = login_records(
                        form.server_url,
                        form.insecure,
                        form.api_key_mode,
                        form.username.as_str(),
                        form.password.as_str(),
                        form.api_key.as_str(),
                    );
                    let username = records.account.username.clone();
                    (LoginStage::AwaitStored { token: token.clone(), username }, LoginAction::Store { records, token })
                },
                Err(o) => (LoginStage::Done, LoginAction::Finish(o)),
            },
            _ => unexpected_step(),
        },
        LoginStage::AwaitStored { token, username } => match event {
            LoginEvent::RecordsStored => (LoginStage::Done, LoginAction::Finish(LoginOutcome::Success { token, username })),
            _ => unexpected_step(),
        },
        LoginStage::Done => unexpected_step(),
    }
}

/// A sign-in stores its records and session only with a token the server has
/// just issued, in the step that received it.
pub proof fn law_login_stores_only_issued_token(stage: LoginStage, event: LoginEvent, r: (LoginStage, LoginAction))
    requires
        login_step_meaning(stage, event, r),
    ensures
        r.1 is Store ==> stage is AwaitToken && event == LoginEvent::TokenFinished(ApiResult::Success(r.1->token)),
{
}

/// A token is asked for only right after the server accepted the login.
pub proof fn law_login_requests_token_only_after_login(stage: LoginStage, event: LoginEvent, r: (LoginStage, LoginAction))
    requires
        login_step_meaning(stage, event, r),
    ensures
        r.1 is GenerateToken ==> stage is AwaitLogin && event == LoginEvent::LoginFinished(ApiResult::Success(true)),
{
}

/// The connection is made only after the preferences were saved, and
/// credentials are sent only over a connection that was just made.
pub proof fn law_login_sends_credentials_only_when_connected(
    stage: LoginStage,
    event: LoginEvent,
    r: (LoginStage, LoginAction),
)
    requires
        login_step_meaning(stage, event, r),
    ensures
        r.1 is Connect ==> stage is AwaitPrefsSaved && event is PrefsSaved,
        (r.1 is LoginWithApiKey || r.1 is LoginWithPassword) ==> stage is AwaitConnect && event
            == LoginEvent::ConnectFinished(true),
{
}

/// A sign-in succeeds only once its records are stored, and with the token
/// they were stored with.
pub proof fn law_login_succeeds_only_after_store(stage: LoginStage, event: LoginEvent, r: (LoginStage, LoginAction))
    requires
        login_step_meaning(stage, event, r),
    ensures
        r.1 matches LoginAction::Finish(LoginOutcome::Success { token, .. }) ==> stage matches LoginStage::AwaitStored {
            token: t,
            ..
        } && t == token && event is RecordsStored,
        r.0 is AwaitStored ==> r.1 is Store && r.0->AwaitStored_token == r.1->token,
{
}

/// A finished sign-in stays finished.
pub proof fn law_login_done_is_final(event: LoginEvent, r: (LoginStage, LoginAction))
    requires
        login_step_meaning(LoginStage::Done, event, r),
    ensures
        r.0 is Done,
        r.1 is Finish,
{
}

} // verus!
