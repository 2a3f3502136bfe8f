use truehub_api::store::accounts::{
    credential_kinds_to_clear, credential_reads, credential_writes, keyring_service, now_millis, epoch_millis, AccountStore,
    LoginMethod, SavedAccount, SavedServer, SESSION_ACCOUNT, SESSION_TOKEN_KIND,
};
use truehub_api::store::prefs::AppPrefs;

fn server(id: &str, url: &str) -> SavedServer {
    SavedServer { id: id.to_string(), server_url: url.to_string(), insecure: false, nickname: None, last_used: 1 }
}

fn account(id: &str, server_id: &str, user: &str) -> SavedAccount {
    SavedAccount {
        id: id.to_string(),
        server_id: server_id.to_string(),
        username: user.to_string(),
        login_method: LoginMethod::Password,
        last_used: 1,
        auto_login_enabled: false,
    }
}

fn is_uuid(s: &str) -> bool {
    s.len() == 36
        && s.chars().enumerate().all(|(i, c)| {
            if [8, 13, 18, 23].contains(&i) { c == '-' } else { c.is_ascii_digit() || ('a'..='f').contains(&c) }
        })
}

#[test]
fn new_records_get_uuid_ids() {
    let s = SavedServer::new("wss://a/api/current".to_string(), true, Some("home".to_string()));
    assert!(is_uuid(&s.id));
    assert_eq!(s.server_url, "wss://a/api/current");
    assert!(s.insecure);
    assert_eq!(s.nickname.as_deref(), Some("home"));
    let a = SavedAccount::new(s.id.clone(), "admin".to_string(), LoginMethod::ApiKey);
    assert!(is_uuid(&a.id));
    assert_ne!(a.id, s.id);
    assert_eq!(a.server_id, s.id);
    assert!(!a.auto_login_enabled);
    assert_eq!(a.login_method, LoginMethod::ApiKey);
}

#[test]
fn upsert_replaces_or_appends() {
    let mut store = AccountStore::default();
    store.upsert_server(server("s1", "u1"));
    store.upsert_server(server("s2", "u2"));
    store.upsert_server(server("s1", "u1b"));
    assert_eq!(store.servers.len(), 2);
    assert_eq!(store.servers[0].server_url, "u1b");
    assert_eq!(store.servers[1].server_url, "u2");
    store.upsert_account(account("a1", "s1", "root"));
    store.upsert_account(account("a1", "s1", "admin"));
    assert_eq!(store.accounts.len(), 1);
    assert_eq!(store.accounts[0].username, "admin");
}

#[test]
fn lookups_find_the_first_match() {
    let mut store = AccountStore::default();
    store.servers = vec![server("s1", "first"), server("s2", "x"), server("s1", "second")];
    let found = store.into_server("s1").unwrap();
    assert_eq!(found.server_url, "first");

    let mut store = AccountStore::default();
    store.accounts = vec![account("a1", "s1", "u"), account("a2", "s2", "v"), account("a3", "s1", "w")];
    assert!(AccountStore { accounts: store.accounts.clone(), ..AccountStore::default() }.into_account("zz").is_none());
    let on_s1 = store.into_accounts_for_server("s1");
    let names: Vec<_> = on_s1.iter().map(|a| a.username.as_str()).collect();
    assert_eq!(names, ["u", "w"]);
}

#[test]
fn removing_a_server_forgets_its_accounts() {
    let mut store = AccountStore::default();
    store.servers = vec![server("s1", "a"), server("s2", "b")];
    store.accounts = vec![account("a1", "s1", "u"), account("a2", "s2", "v"), account("a3", "s1", "w")];
    store.last_used_profile = Some("s1:a1".to_string());
    let removed = store.remove_server("s1");
    assert_eq!(removed, ["a1", "a3"]);
    assert_eq!(store.servers.len(), 1);
    assert_eq!(store.servers[0].id, "s2");
    assert_eq!(store.accounts.len(), 1);
    assert_eq!(store.accounts[0].id, "a2");
    assert_eq!(store.last_used_profile.as_deref(), Some("s1:a1"));
}

#[test]
fn removing_an_account() {
    let mut store = AccountStore::default();
    store.accounts = vec![account("a1", "s1", "u"), account("a2", "s1", "v")];
    store.remove_account("a1");
    assert_eq!(store.accounts.len(), 1);
    assert_eq!(store.accounts[0].id, "a2");
}

#[test]
fn profile_is_recorded_and_read_back() {
    let mut store = AccountStore::default();
    store.servers = vec![server("s1", "a"), server("s2", "b")];
    store.accounts = vec![account("a1", "s1", "u")];
    store.touch_profile("s1", "a1", 100, 200);
    assert_eq!(store.last_used_profile.as_deref(), Some("s1:a1"));
    assert_eq!(store.servers[0].last_used, 100);
    assert_eq!(store.servers[1].last_used, 1);
    assert_eq!(store.accounts[0].last_used, 200);
    assert_eq!(store.last_used_profile_ids(), Some(("s1".to_string(), "a1".to_string())));
    store.record_last_used_profile("s2", "a:b");
    assert_eq!(store.last_used_profile_ids(), Some(("s2".to_string(), "a:b".to_string())));
}

#[test]
fn profile_without_separator_reads_as_nothing() {
    let mut store = AccountStore::default();
    assert_eq!(store.last_used_profile_ids(), None);
    store.last_used_profile = Some("nocolon".to_string());
    assert_eq!(store.last_used_profile_ids(), None);
}

#[test]
fn sessions_need_a_token() {
    let mut store = AccountStore::default();
    assert_eq!(store.current_session_with_token(Some("t".to_string())), None);
    store.set_current_session("s1", "a1");
    assert_eq!(store.current_session.as_deref(), Some("s1:a1"));
    assert_eq!(store.current_session_with_token(None), None);
    assert_eq!(
        store.current_session_with_token(Some("tok".to_string())),
        Some(("s1".to_string(), "a1".to_string(), "tok".to_string()))
    );
    store.clear_current_session();
    assert_eq!(store.current_session, None);
}

#[test]
fn credential_plans() {
    assert_eq!(keyring_service("abc"), "truehub_abc");
    assert_eq!(
        credential_writes(&LoginMethod::ApiKey, Some("k"), Some("u"), Some("p")),
        vec![("api_key".to_string(), "k".to_string())]
    );
    assert_eq!(credential_writes(&LoginMethod::ApiKey, None, Some("u"), None), vec![]);
    assert_eq!(
        credential_writes(&LoginMethod::Password, Some("k"), Some("u"), Some("p")),
        vec![("username".to_string(), "u".to_string()), ("password".to_string(), "p".to_string())]
    );
    assert_eq!(
        credential_writes(&LoginMethod::Password, None, None, Some("p")),
        vec![("password".to_string(), "p".to_string())]
    );
    assert_eq!(credential_reads(&LoginMethod::ApiKey), ("api_key".to_string(), None));
    assert_eq!(credential_reads(&LoginMethod::Password), ("username".to_string(), Some("password".to_string())));
    assert_eq!(credential_kinds_to_clear(), ["api_key", "username", "password"]);
    assert_eq!(SESSION_ACCOUNT, "session");
    assert_eq!(SESSION_TOKEN_KIND, "token");
}

#[test]
fn default_prefs() {
    let p = AppPrefs::default();
    assert_eq!(p.server_url, None);
    assert!(!p.insecure);
    assert!(!p.enable_debug_logging);
}

#[test]
fn written_secrets_are_read_back_and_cleared() {
    let cleared = credential_kinds_to_clear();
    for method in [LoginMethod::ApiKey, LoginMethod::Password] {
        let writes = credential_writes(&method, Some("k"), Some("u"), Some("p"));
        let (first, second) = credential_reads(&method);
        let mut read = vec![first];
        read.extend(second);
        let written: Vec<String> = writes.iter().map(|(kind, _)| kind.clone()).collect();
        assert_eq!(written, read);
        for kind in &written {
            assert!(cleared.contains(kind));
        }
    }
    assert_ne!(keyring_service("a"), keyring_service("b"));
    assert_ne!(keyring_service("session"), keyring_service("a"));
}

#[test]
fn clock_reads_after_the_epoch() {
    let a = now_millis();
    let b = now_millis();
    assert!(a > 0);
    assert!(b >= a);
}

#[test]
fn epoch_millis_keeps_low_bits_or_zero() {
    assert_eq!(epoch_millis(Some(1_700_000_000_123)), 1_700_000_000_123);
    assert_eq!(epoch_millis(Some((1u128 << 64) + 7)), 7);
    assert_eq!(epoch_millis(None), 0);
}
