use vstd::prelude::*;
use crate::result::ApiResult;
use crate::store::accounts::{LoginMethod, SavedAccount, SavedServer};

verus! {

/// Where the start of the application ends.
#[derive(Debug)]
pub enum StartupOutcome {
    /// The user has to sign in.
    NeedsLogin,
    /// Signed in again with the stored credentials of the last used profile.
    NeedsCredentialLogin { token: String, username: String },
    /// The stored session was still valid.
    Ready { token: String, username: String },
}

/// How far the start of the application has come: what it waits for.
#[derive(Debug)]
pub enum StartupStage {
    Begin,
    AwaitSession,
    AwaitSessionRecords { server_id: String, account_id: String, token: String },
    AwaitSessionConnect { server_id: String, account_id: String, token: String, username: String },
    AwaitTokenLogin { server_id: String, account_id: String, username: String },
    AwaitSessionToken { server_id: String, account_id: String, username: String },
    AwaitSessionSaved { token: String, username: String },
    AwaitProfile,
    AwaitProfileRecords { server_id: String, account_id: String },
    AwaitCredentials {
        server_id: String,
        account_id: String,
        server_url: String,
        insecure: bool,
        username: String,
        method: LoginMethod,
    },
    AwaitProfileConnect {
        server_id: String,
        account_id: String,
        username: String,
        method: LoginMethod,
        first: Option<String>,
        second: Option<String>,
    },
    AwaitCredentialLogin { server_id: String, account_id: String, username: String },
    AwaitProfileToken { server_id: String, account_id: String, username: String },
    AwaitProfileSaved { token: String, username: String },
    Done,
}

/// What came back from the last action.
#[derive(Debug)]
pub enum StartupEvent {
    /// The preferences were read; the saved server address, if any.
    Started { server_url: Option<String> },
    /// The current session: server id, account id, token.
    SessionLoaded(Option<(String, String, String)>),
    /// The saved server and account looked up.
    RecordsLoaded { server: Option<SavedServer>, account: Option<SavedAccount> },
    /// Whether the connection to the server was made.
    ConnectFinished(bool),
    /// The answer to a login call.
    LoginFinished(ApiResult<bool>),
    /// The answer to a token request.
    TokenFinished(ApiResult<String>),
    /// The session was stored (whatever the store answered).
    SessionSaved,
    /// The last used profile: server id, account id.
    ProfileLoaded(Option<(String, String)>),
    /// The stored secrets of the account.
    CredentialsLoaded(Option<String>, Option<String>),
}

/// What the application is to do next.
#[derive(Debug)]
pub enum StartupAction {
    LoadSession,
    LoadRecords { server_id: String, account_id: String },
    Connect { server_url: String, insecure: bool },
    LoginWithToken { token: String },
    GenerateToken,
    SaveSession { server_id: String, account_id: String, token: String },
    LoadProfile,
    LoadCredentials { account_id: String, method: LoginMethod },
    LoginWithApiKey { key: String },
    LoginWithPassword { username: String, password: String },
    Finish(StartupOutcome),
}

/// Falling back from the stored session to the last used profile.
pub open spec fn to_profile() -> (StartupStage, StartupAction) {
    (StartupStage::AwaitProfile, StartupAction::LoadProfile)
}

/// Giving up: the user has to sign in.
pub open spec fn give_up() -> (StartupStage, StartupAction) {
    (StartupStage::Done, StartupAction::Finish(StartupOutcome::NeedsLogin))
}

/// The start of the application, one step at a time. It first tries the
/// stored session (its server, a connection, a login with its token, a new
/// token), and on any failure the last used profile with auto login (its
/// server, its stored secrets, a connection, a login, a new token); anything
/// else ends with the user having to sign in.
pub open spec fn startup_next(stage: StartupStage, event: StartupEvent) -> (StartupStage, StartupAction) {
    match (stage, event) {
        (StartupStage::Begin, StartupEvent::Started { server_url }) => match server_url {
            None => give_up(),
            Some(_) => (StartupStage::AwaitSession, StartupAction::LoadSession),
        },
        (StartupStage::AwaitSession, StartupEvent::SessionLoaded(found)) => match found {
            Some((s, a, t)) => (
                StartupStage::AwaitSessionRecords { server_id: s, account_id: a, token: t },
                StartupAction::LoadRecords { server_id: s, account_id: a },
            ),
            None => to_profile(),
        },
        (
            StartupStage::AwaitSessionRecords { server_id, account_id, token },
            StartupEvent::RecordsLoaded { server, account },
        ) => match (server, account) {
            (Some(sv), Some(ac)) => (
                StartupStage::AwaitSessionConnect { server_id, account_id, token, username: ac.username },
                StartupAction::Connect { server_url: sv.server_url, insecure: sv.insecure },
            ),
            _ => to_profile(),
        },
        (
            StartupStage::AwaitSessionConnect { server_id, account_id, token, username },
            StartupEvent::ConnectFinished(ok),
        ) => if ok {
            (
                StartupStage::AwaitTokenLogin { server_id, account_id, username },
                StartupAction::LoginWithToken { token },
            )
        } else {
            to_profile()
        },
        (
            StartupStage::AwaitTokenLogin { server_id, account_id, username },
            StartupEvent::LoginFinished(r),
        ) => match r {
            ApiResult::Success(true) => (
                StartupStage::AwaitSessionToken { server_id, account_id, username },
                StartupAction::GenerateToken,
            ),
            _ => to_profile(),
        },
        (
            StartupStage::AwaitSessionToken { server_id, account_id, username },
            StartupEvent::TokenFinished(r),
        ) => match r {
            ApiResult::Success(t) => (
                StartupStage::AwaitSessionSaved { token: t, username },
                StartupAction::SaveSession { server_id, account_id, token: t },
            ),
            _ => to_profile(),
        },
        (StartupStage::AwaitSessionSaved { token, username }, StartupEvent::SessionSaved) => (
            StartupStage::Done,
            StartupAction::Finish(StartupOutcome::Ready { token, username }),
        ),
        (StartupStage::AwaitProfile, StartupEvent::ProfileLoaded(found)) => match found {
            Some((s, a)) => (
                StartupStage::AwaitProfileRecords { server_id: s, account_id: a },
                StartupAction::LoadRecords { server_id: s, account_id: a },
            ),
            None => give_up(),
        },
        (
            StartupStage::AwaitProfileRecords { server_id, account_id },
            StartupEvent::RecordsLoaded { server, account },
        ) => match (server, account) {
            (Some(sv), Some(ac)) => if ac.auto_login_enabled {
                (
                    StartupStage::AwaitCredentials {
                        server_id,
                        account_id,
                        server_url: sv.server_url,
                        insecure: sv.insecure,
                        username: ac.username,
                        method: ac.login_method,
                    },
                    StartupAction::LoadCredentials { account_id: ac.id, method: ac.login_method },
                )
            } else {
                give_up()
            },
            _ => give_up(),
        },
        (
            StartupStage::AwaitCredentials { server_id, account_id, server_url, insecure, username, method },
            StartupEvent::CredentialsLoaded(first, second),
        ) => (
            StartupStage::AwaitProfileConnect { server_id, account_id, username, method, first, second },
            StartupAction::Connect { server_url, insecure },
        ),
        (
            StartupStage::AwaitProfileConnect { server_id, account_id, username, method, first, second },
            StartupEvent::ConnectFinished(ok),
        ) => if !ok {
            give_up()
        } else {
            match method {
                LoginMethod::ApiKey => match first {
                    Some(k) => (
                        StartupStage::AwaitCredentialLogin { server_id, account_id, username },
                        StartupAction::LoginWithApiKey { key: k },
                    ),
                    None => give_up(),
                },
                LoginMethod::Password => match (first, second) {
                    (Some(u), Some(p)) => (
                        StartupStage::AwaitCredentialLogin { server_id, account_id, username },
                        StartupAction::LoginWithPassword { username: u, password: p },
                    ),
                    _ => give_up(),
                },
            }
        },
        (
            StartupStage::AwaitCredentialLogin { server_id, account_id, username },
            StartupEvent::LoginFinished(r),
        ) => match r {
            ApiResult::Success(true) => (
                StartupStage::AwaitProfileToken { server_id, account_id, username },
                StartupAction::GenerateToken,
            ),
            _ => give_up(),
        },
        (
            StartupStage::AwaitProfileToken { server_id, account_id, username },
            StartupEvent::TokenFinished(r),
        ) => match r {
            ApiResult::Success(t) => (
                StartupStage::AwaitProfileSaved { token: t, username },
                StartupAction::SaveSession { server_id, account_id, token: t },
            ),
            _ => give_up(),
        },
        (StartupStage::AwaitProfileSaved { token, username }, StartupEvent::SessionSaved) => (
            StartupStage::Done,
            StartupAction::Finish(StartupOutcome::NeedsCredentialLogin { token, username }),
        ),
        _ => give_up(),
    }
}

fn profile_fallback() -> (r: (StartupStage, StartupAction))
    ensures
        r == to_profile(),
{
    (StartupStage::AwaitProfile, StartupAction::LoadProfile)
}

fn needs_login() -> (r: (StartupStage, StartupAction))
    ensures
        r == give_up(),
{
    (StartupStage::Done, StartupAction::Finish(StartupOutcome::NeedsLogin))
}

/// One step of the start of the application: from what it waited for and
/// what came back, what it waits for next and what to do now.
pub fn startup_step(stage: StartupStage, event: StartupEvent) -> (r: (StartupStage, StartupAction))
    ensures
        r == startup_next(stage, event),
{
    match (stage, event) {
        (StartupStage::Begin, StartupEvent::Started { server_url }) => match server_url {
            None => needs_login(),
            Some(_) => (StartupStage::AwaitSession, StartupAction::LoadSession),
        },
        (StartupStage::AwaitSession, StartupEvent::SessionLoaded(found)) => match found {
            Some((s, a, t)) => {
                let s2 = s.clone();
                let a2 = a.clone();
                (
                    StartupStage::AwaitSessionRecords { server_id: s, account_id: a, token: t },
                    StartupAction::LoadRecords { server_id: s2, account_id: a2 },
                )
            },
            None => profile_fallback(),
        },
        (
            StartupStage::AwaitSessionRecords { server_id, account_id, token },
            StartupEvent::RecordsLoaded { server, account },
        ) => match (server, account) {
            (Some(sv), Some(ac)) => (
                StartupStage::AwaitSessionConnect { server_id, account_id, token, username: ac.username },
                StartupAction::Connect { server_url: sv.server_url, insecure: sv.insecure },
            ),
            _ => profile_fallback(),
        },
        (
            StartupStage::AwaitSessionConnect { server_id, account_id, token, username },
            StartupEvent::ConnectFinished(ok),
        ) => if ok {
            (
                StartupStage::AwaitTokenLogin { server_id, account_id, username },
                StartupAction::LoginWithToken { token },
            )
        } else {
            profile_fallback()
        },
        (
            StartupStage::AwaitTokenLogin { server_id, account_id, username },
            StartupEvent::LoginFinished(r),
        ) => match r {
            ApiResult::Success(true) => (
                StartupStage::AwaitSessionToken { server_id, account_id, username },
                StartupAction::GenerateToken,
            ),
            _ => profile_fallback(),
        },
        (
            StartupStage::AwaitSessionToken { server_id, account_id, username },
            StartupEvent::TokenFinished(r),
        ) => match r {
            ApiResult::Success(t) => {
                let t2 = t.clone();
                (
                    StartupStage::AwaitSessionSaved { token: t, username },
                    StartupAction::SaveSession { server_id, account_id, token: t2 },
                )
            },
            _ => profile_fallback(),
        },
        (StartupStage::AwaitSessionSaved { token, username }, StartupEvent::SessionSaved) => (
            StartupStage::Done,
            StartupAction::Finish(StartupOutcome::Ready { token, username }),
        ),
        (StartupStage::AwaitProfile, StartupEvent::ProfileLoaded(found)) => match found {
            Some((s, a)) => {
                let s2 = s.clone();
                let a2 = a.clone();
                (
                    StartupStage::AwaitProfileRecords { server_id: s, account_id: a },
                    StartupAction::LoadRecords { server_id: s2, account_id: a2 },
                )
            },
            None => needs_login(),
        },
        (
            StartupStage::AwaitProfileRecords { server_id, account_id },
            StartupEvent::RecordsLoaded { server, account },
        ) => match (server, account) {
            (Some(sv), Some(ac)) => if ac.auto_login_enabled {
                let m2 = ac.login_method.clone();
                (
                    StartupStage::AwaitCredentials {
                        server_id,
                        account_id,
                        server_url: sv.server_url,
                        insecure: sv.insecure,
                        username: ac.username,
                        method: ac.login_method,
                    },
                    StartupAction::LoadCredentials { account_id: ac.id, method: m2 },
                )
            } else {
                needs_login()
            },
            _ => needs_login(),
        },
        (
            StartupStage::AwaitCredentials { server_id, account_id, server_url, insecure, username, method },
            StartupEvent::CredentialsLoaded(first, second),
        ) => (
            StartupStage::AwaitProfileConnect { server_id, account_id, username, method, first, second },
            StartupAction::Connect { server_url, insecure },
        ),
        (
            StartupStage::AwaitProfileConnect { server_id, account_id, username, method, first, second },
            StartupEvent::ConnectFinished(ok),
        ) => if !ok {
            needs_login()
        } else {
            match method {
                LoginMethod::ApiKey => match first {
                    Some(k) => (
                        StartupStage::AwaitCredentialLogin { server_id, account_id, username },
                        StartupAction::LoginWithApiKey { key: k },
                    ),
                    None => needs_login(),
                },
                LoginMethod::Password => match (first, second) {
                    (Some(u), Some(p)) => (
                        StartupStage::AwaitCredentialLogin { server_id, account_id, username },
                        StartupAction::LoginWithPassword { username: u, password: p },
                    ),
                    _ => needs_login(),
                },
            }
        },
        (
            StartupStage::AwaitCredentialLogin { server_id, account_id, username },
            StartupEvent::LoginFinished(r),
        ) => match r {
            ApiResult::Success(true) => (
                StartupStage::AwaitProfileToken { server_id, account_id, username },
                StartupAction::GenerateToken,
            ),
            _ => needs_login(),
        },
        (
            StartupStage::AwaitProfileToken { server_id, account_id, username },
            StartupEvent::TokenFinished(r),
        ) => match r {
            ApiResult::Success(t) => {
                let t2 = t.clone();
                (
                    StartupStage::AwaitProfileSaved { token: t, username },
                    StartupAction::SaveSession { server_id, account_id, token: t2 },
                )
            },
            _ => needs_login(),
        },
        (StartupStage::AwaitProfileSaved { token, username }, StartupEvent::SessionSaved) => (
            StartupStage::Done,
            StartupAction::Finish(StartupOutcome::NeedsCredentialLogin { token, username }),
        ),
        _ => needs_login(),
    }
}


/// Without a saved server address the application asks the user to sign in.
pub proof fn law_startup_without_server_needs_login()
    ensures
        startup_next(StartupStage::Begin, StartupEvent::Started { server_url: None })
            == (StartupStage::Done, StartupAction::Finish(StartupOutcome::NeedsLogin)),
{
}

/// A start ends ready only with the token the server issued for the stored
/// session, after that token has been stored; and it ends signed in with
/// stored credentials only with the token issued after that login.
pub proof fn law_startup_outcome_token_was_stored(stage: StartupStage, event: StartupEvent)
    ensures
        startup_next(stage, event).1 matches StartupAction::Finish(StartupOutcome::Ready { token, username })
            ==> stage == (StartupStage::AwaitSessionSaved { token, username }) && event == StartupEvent::SessionSaved,
        startup_next(stage, event).1 matches StartupAction::Finish(StartupOutcome::NeedsCredentialLogin { token, username })
            ==> stage == (StartupStage::AwaitProfileSaved { token, username }) && event == StartupEvent::SessionSaved,
{
}

/// The only token ever stored as the session is one the server has just issued.
pub proof fn law_startup_saves_only_issued_tokens(stage: StartupStage, event: StartupEvent)
    ensures
        startup_next(stage, event).1 matches StartupAction::SaveSession { token, .. }
            ==> event == StartupEvent::TokenFinished(ApiResult::Success(token)),
{
}

/// A login is only attempted on a connection that was just made.
pub proof fn law_startup_logs_in_only_when_connected(stage: StartupStage, event: StartupEvent)
    ensures
        (startup_next(stage, event).1 is LoginWithToken
            || startup_next(stage, event).1 is LoginWithApiKey
            || startup_next(stage, event).1 is LoginWithPassword)
            ==> event == StartupEvent::ConnectFinished(true),
{
}

/// Once the start has ended it stays ended: every further event keeps it
/// done and asks the user to sign in.
pub proof fn law_startup_done_is_final(event: StartupEvent)
    ensures
        startup_next(StartupStage::Done, event) == give_up(),
{
}

/// The server and account ids a stage is working with, when it has them.
pub open spec fn stage_ids(s: StartupStage) -> Option<(String, String)> {
    match s {
        StartupStage::AwaitSessionRecords { server_id, account_id, .. } => Some((server_id, account_id)),
        StartupStage::AwaitSessionConnect { server_id, account_id, .. } => Some((server_id, account_id)),
        StartupStage::AwaitTokenLogin { server_id, account_id, .. } => Some((server_id, account_id)),
        StartupStage::AwaitSessionToken { server_id, account_id, .. } => Some((server_id, account_id)),
        StartupStage::AwaitProfileRecords { server_id, account_id } => Some((server_id, account_id)),
        StartupStage::AwaitCredentials { server_id, account_id, .. } => Some((server_id, account_id)),
        StartupStage::AwaitProfileConnect { server_id, account_id, .. } => Some((server_id, account_id)),
        StartupStage::AwaitCredentialLogin { server_id, account_id, .. } => Some((server_id, account_id)),
        StartupStage::AwaitProfileToken { server_id, account_id, .. } => Some((server_id, account_id)),
        _ => None,
    }
}

/// The ids start-up works with are those of the session or profile it loaded:
/// a step that keeps working with ids keeps the same ids, the ids are taken up
/// only from a loaded session or profile (and the records looked up are theirs),
/// and a session is stored under the server id and account id of the stage
/// that received the new token.
pub proof fn law_startup_keeps_loaded_ids(stage: StartupStage, event: StartupEvent)
    ensures
        ({
            let r = startup_next(stage, event);
            &&& (stage_ids(stage) is Some && stage_ids(r.0) is Some) ==> stage_ids(r.0) == stage_ids(stage)
            &&& (stage_ids(stage) is None && stage_ids(r.0) is Some) ==> (
                (event matches StartupEvent::SessionLoaded(Some((s, a, _t))) && stage_ids(r.0) == Some((s, a)))
                || (event matches StartupEvent::ProfileLoaded(Some((s, a))) && stage_ids(r.0) == Some((s, a))))
            &&& r.1 matches StartupAction::LoadRecords { server_id, account_id }
                ==> stage_ids(r.0) == Some((server_id, account_id))
            &&& r.1 matches StartupAction::SaveSession { server_id, account_id, .. }
                ==> stage_ids(stage) == Some((server_id, account_id))
        }),
{
}

/// Every connection start-up makes goes to the saved server record that was
/// loaded, with that record's certificate choice: directly for the stored
/// session, and through the stage that waits for the credentials for the
/// last used profile. The credentials looked up are those of the loaded
/// account, for its sign-in method.
pub proof fn law_startup_connects_to_loaded_server(stage: StartupStage, event: StartupEvent)
    ensures
        ({
            let r = startup_next(stage, event);
            &&& r.1 matches StartupAction::Connect { server_url, insecure } ==> (
                (event matches StartupEvent::RecordsLoaded { server: Some(sv), .. }
                    && server_url == sv.server_url && insecure == sv.insecure)
                || (stage matches StartupStage::AwaitCredentials { server_url: u, insecure: i, .. }
                    && server_url == u && insecure == i))
            &&& r.0 matches StartupStage::AwaitCredentials { server_url, insecure, method, .. } ==> (
                event matches StartupEvent::RecordsLoaded { server: Some(sv), account: Some(ac) }
                    && server_url == sv.server_url && insecure == sv.insecure && method == ac.login_method
                    && ac.auto_login_enabled
                    && r.1 == StartupAction::LoadCredentials { account_id: ac.id, method: ac.login_method })
        }),
{
}

/// The user name a stage carries, when it carries one.
pub open spec fn stage_username(s: StartupStage) -> Option<String> {
    match s {
        StartupStage::AwaitSessionConnect { username, .. } => Some(username),
        StartupStage::AwaitTokenLogin { username, .. } => Some(username),
        StartupStage::AwaitSessionToken { username, .. } => Some(username),
        StartupStage::AwaitSessionSaved { username, .. } => Some(username),
        StartupStage::AwaitCredentials { username, .. } => Some(username),
        StartupStage::AwaitProfileConnect { username, .. } => Some(username),
        StartupStage::AwaitCredentialLogin { username, .. } => Some(username),
        StartupStage::AwaitProfileToken { username, .. } => Some(username),
        StartupStage::AwaitProfileSaved { username, .. } => Some(username),
        _ => None,
    }
}

/// The user name start-up ends with is that of the saved account it loaded:
/// it is taken up only from a loaded account record, kept unchanged from step
/// to step, and it is the one a finished start reports.
pub proof fn law_startup_reports_loaded_username(stage: StartupStage, event: StartupEvent)
    ensures
        ({
            let r = startup_next(stage, event);
            &&& (stage_username(stage) is Some && stage_username(r.0) is Some)
                ==> stage_username(r.0) == stage_username(stage)
            &&& (stage_username(stage) is None && stage_username(r.0) is Some) ==> (
                event matches StartupEvent::RecordsLoaded { account: Some(ac), .. }
                    && stage_username(r.0) == Some(ac.username))
            &&& r.1 matches StartupAction::Finish(StartupOutcome::Ready { username, .. })
                ==> stage_username(stage) == Some(username)
            &&& r.1 matches StartupAction::Finish(StartupOutcome::NeedsCredentialLogin { username, .. })
                ==> stage_username(stage) == Some(username)
        }),
{
}

/// Start-up logs in with what it loaded: the stored session's own token, or
/// the saved secrets of the account, as its sign-in method asks (the API key
/// alone, or the user name and the password).
pub proof fn law_startup_logs_in_with_loaded_secrets(stage: StartupStage, event: StartupEvent)
    ensures
        ({
            let r = startup_next(stage, event);
            &&& r.0 matches StartupStage::AwaitSessionRecords { token, .. }
                ==> (event matches StartupEvent::SessionLoaded(Some((_s, _a, t))) && t == token)
            &&& r.0 matches StartupStage::AwaitSessionConnect { token, .. }
                ==> (stage matches StartupStage::AwaitSessionRecords { token: t, .. } && t == token)
            &&& r.1 matches StartupAction::LoginWithToken { token }
                ==> (stage matches StartupStage::AwaitSessionConnect { token: t, .. } && t == token)
            &&& r.0 matches StartupStage::AwaitProfileConnect { method, first, second, .. } ==> (
                (event matches StartupEvent::CredentialsLoaded(f, g) && f == first && g == second)
                    && (stage matches StartupStage::AwaitCredentials { method: m, .. } && m == method))
            &&& r.1 matches StartupAction::LoginWithApiKey { key } ==> (
                stage matches StartupStage::AwaitProfileConnect { method, first, .. }
                    && method == LoginMethod::ApiKey && first == Some(key))
            &&& r.1 matches StartupAction::LoginWithPassword { username, password } ==> (
                stage matches StartupStage::AwaitProfileConnect { method, first, second, .. }
                    && method == LoginMethod::Password && first == Some(username) && second == Some(password))
        }),
{
}

} // verus!
