use vstd::prelude::*;
use crate::text::{first_pos_of, lemma_first_pos_of, lemma_first_pos_of_concat, split_first,
    split_once_char, join_with_char, str_eq};

verus! {

/// How an account signs in.
#[derive(Debug, PartialEq, Eq, Structural)]
pub enum LoginMethod {
    Password,
    ApiKey,
}

impl Clone for LoginMethod {
    fn clone(&self) -> (r: Self)
        ensures
            r == *self,
    {
        match self {
            LoginMethod::Password => LoginMethod::Password,
            LoginMethod::ApiKey => LoginMethod::ApiKey,
        }
    }
}

/// A server the user has signed in to.
#[derive(Debug)]
pub struct SavedServer {
    pub id: String,
    pub server_url: String,
    pub insecure: bool,
    pub nickname: Option<String>,
    pub last_used: u64,
}

/// An account on a saved server.
#[derive(Debug)]
pub struct SavedAccount {
    pub id: String,
    pub server_id: String,
    pub username: String,
    pub login_method: LoginMethod,
    pub last_used: u64,
    pub auto_login_enabled: bool,
}

/// What the application keeps of its servers, accounts and sessions.
#[derive(Debug)]
pub struct AccountStore {
    pub servers: Vec<SavedServer>,
    pub accounts: Vec<SavedAccount>,
    pub last_used_profile: Option<String>,
    pub current_session: Option<String>,
}

/// A copy of an optional string.
pub fn clone_opt_string(o: &Option<String>) -> (r: Option<String>)
    ensures
        r == *o,
{
    match o {
        Some(s) => Some(s.clone()),
        None => None,
    }
}

impl Clone for SavedServer {
    fn clone(&self) -> (r: Self)
        ensures
            r == *self,
    {
        SavedServer {
            id: self.id.clone(),
            server_url: self.server_url.clone(),
            insecure: self.insecure,
            nickname: clone_opt_string(&self.nickname),
            last_used: self.last_used,
        }
    }
}

impl Clone for SavedAccount {
    fn clone(&self) -> (r: Self)
        ensures
            r == *self,
    {
        SavedAccount {
            id: self.id.clone(),
            server_id: self.server_id.clone(),
            username: self.username.clone(),
            login_method: self.login_method.clone(),
            last_used: self.last_used,
            auto_login_enabled: self.auto_login_enabled,
        }
    }
}

impl Default for AccountStore {
    fn default() -> (s: Self)
        ensures
            s.servers@.len() == 0,
            s.accounts@.len() == 0,
            s.last_used_profile is None,
            s.current_session is None,
    {
        AccountStore {
            servers: Vec::new(),
            accounts: Vec::new(),
            last_used_profile: None,
            current_session: None,
        }
    }
}

/// Whether `c` is a lowercase hexadecimal digit.
pub open spec fn is_lower_hex(c: char) -> bool {
    ('0' <= c <= '9') || ('a' <= c <= 'f')
}

/// The text of a UUID in its hyphenated lowercase form: 36 characters,
/// hyphens at positions 8, 13, 18 and 23, hexadecimal digits elsewhere.
pub open spec fn is_uuid_text(s: Seq<char>) -> bool {
    &&& s.len() == 36
    &&& forall|i: int| 0 <= i < 36 ==> if i == 8 || i == 13 || i == 18 || i == 23 {
        #[trigger] s[i] == '-'
    } else {
        is_lower_hex(s[i])
    }
}

/// Calls `uuid::Uuid::new_v4` and writes the result with `to_string`. The
/// value is random; the contract states only the form that uuid's `Display`
/// writes (the hyphenated lowercase text of 36 characters).
#[verifier::external_body]
fn new_random_id() -> (s: String)
    ensures
        is_uuid_text(s@),
{
    uuid::Uuid::new_v4().to_string()
}

/// `std::time::SystemTime`, a reading of the system clock, carried unread.
#[verifier::external_type_specification]
#[verifier::external_body]
pub struct ExSystemTime(std::time::SystemTime);

/// Calls `std::time::SystemTime::now`. Nothing is stated of the reading: it
/// is the time.
#[verifier::external_body]
fn clock_now() -> std::time::SystemTime {
    std::time::SystemTime::now()
}

/// Calls `SystemTime::duration_since` with `UNIX_EPOCH`: the time elapsed
/// since the epoch, or `None` when the reading is before it. Nothing is stated
/// of the value, which depends on the clock.
#[verifier::external_body]
fn since_unix_epoch(t: &std::time::SystemTime) -> Option<std::time::Duration> {
    t.duration_since(std::time::UNIX_EPOCH).ok()
}

/// Calls `Duration::as_millis`: the whole milliseconds of a duration read
/// from the clock. Nothing is stated of the value.
#[verifier::external_body]
fn whole_millis(d: &std::time::Duration) -> u128 {
    d.as_millis()
}

/// The milliseconds recorded for a reading of the clock, given the whole
/// milliseconds elapsed since the Unix epoch (`None` when the reading is
/// before it): their low 64 bits, or 0.
pub fn epoch_millis(elapsed_ms: Option<u128>) -> (r: u64)
    ensures
        r == match elapsed_ms {
            Some(ms) => ms % 0x1_0000_0000_0000_0000u128,
            None => 0,
        },
{
    match elapsed_ms {
        Some(ms) => {
            let r: u64 = #[verifier::truncate] (ms as u64);
            assert(r == ms % 0x1_0000_0000_0000_0000u128) by (bit_vector)
                requires
                    r == ms as u64,
            ;
            r
        },
        None => 0,
    }
}

/// The milliseconds since the Unix epoch by the system clock, cut to 64 bits,
/// and 0 when the clock is before the epoch (`epoch_millis` of the reading).
/// Nothing is stated of the value: it is the time.
pub fn now_millis() -> u64 {
    let now = clock_now();
    let elapsed = match since_unix_epoch(&now) {
        Some(d) => Some(whole_millis(&d)),
        None => None,
    };
    epoch_millis(elapsed)
}

/// A UUID text holds no ':'.
pub proof fn lemma_uuid_has_no_colon(s: Seq<char>)
    requires
        is_uuid_text(s),
    ensures
        forall|j: int| 0 <= j < s.len() ==> s[j] != ':',
{
    assert forall|j: int| 0 <= j < s.len() implies s[j] != ':' by {
        if j == 8 || j == 13 || j == 18 || j == 23 {
            assert(s[j] == '-');
        } else {
            assert(is_lower_hex(s[j]));
        }
    }
}

impl SavedServer {
    /// A server record with a fresh random id, last used now.
    pub fn new(server_url: String, insecure: bool, nickname: Option<String>) -> (s: Self)
        ensures
            is_uuid_text(s.id@),
            s.server_url == server_url,
            s.insecure == insecure,
            s.nickname == nickname,
    {
        SavedServer {
            id: new_random_id(),
            server_url,
            insecure,
            nickname,
            last_used: now_millis(),
        }
    }
}

impl SavedAccount {
    /// An account record with a fresh random id, last used now, without auto login.
    pub fn new(server_id: String, username: String, login_method: LoginMethod) -> (a: Self)
        ensures
            is_uuid_text(a.id@),
            a.server_id == server_id,
            a.username == username,
            a.login_method == login_method,
            !a.auto_login_enabled,
    {
        SavedAccount {
            id: new_random_id(),
            server_id,
            username,
            login_method,
            last_used: now_millis(),
            auto_login_enabled: false,
        }
    }
}

pub open spec fn server_ids(s: Seq<SavedServer>) -> Seq<Seq<char>> {
    s.map_values(|x: SavedServer| x.id@)
}

pub open spec fn account_ids(s: Seq<SavedAccount>) -> Seq<Seq<char>> {
    s.map_values(|x: SavedAccount| x.id@)
}

/// The sequence with `x` in place of the first element whose id is `id`,
/// or with `x` appended when there is none.
pub open spec fn upserted<T>(s: Seq<T>, ids: Seq<Seq<char>>, id: Seq<char>, x: T) -> Seq<T> {
    let p = first_pos_of(ids, id);
    if p < 0 {
        s.push(x)
    } else {
        s.update(p, x)
    }
}

/// The element whose id comes first among those equal to `id`.
pub open spec fn first_with_id<T>(s: Seq<T>, ids: Seq<Seq<char>>, id: Seq<char>) -> Option<T> {
    let p = first_pos_of(ids, id);
    if p < 0 {
        None
    } else {
        Some(s[p])
    }
}

pub open spec fn server_on(id: Seq<char>) -> spec_fn(SavedServer) -> bool {
    |s: SavedServer| s.id@ != id
}

pub open spec fn account_not_named(id: Seq<char>) -> spec_fn(SavedAccount) -> bool {
    |a: SavedAccount| a.id@ != id
}

pub open spec fn account_off_server(server_id: Seq<char>) -> spec_fn(SavedAccount) -> bool {
    |a: SavedAccount| a.server_id@ != server_id
}

pub open spec fn account_of_server(server_id: Seq<char>) -> spec_fn(SavedAccount) -> bool {
    |a: SavedAccount| a.server_id@ == server_id
}

/// The text kept for a profile or a session: the server id, ':', the account id.
pub open spec fn profile_text(server_id: Seq<char>, account_id: Seq<char>) -> Seq<char> {
    server_id + seq![':'] + account_id
}

/// Taking one more element into a filtered prefix.
pub proof fn lemma_filter_take_step<T>(s: Seq<T>, pred: spec_fn(T) -> bool, i: int)
    requires
        0 <= i < s.len(),
    ensures
        s.take(i + 1).filter(pred) == if pred(s[i]) {
            s.take(i).filter(pred).push(s[i])
        } else {
            s.take(i).filter(pred)
        },
{
    reveal(Seq::filter);
    assert(s.take(i + 1).drop_last() =~= s.take(i));
}

/// The servers with the given id, in their order.
fn server_position(servers: &Vec<SavedServer>, id: &str) -> (r: Option<usize>)
    ensures
        match r {
            Some(p) => p as int == first_pos_of(server_ids(servers@), id@) && p < servers@.len(),
            None => first_pos_of(server_ids(servers@), id@) < 0,
        },
{
    let ghost ids = server_ids(servers@);
    proof { lemma_first_pos_of(ids, id@); }
    let mut i: usize = 0;
    while i < servers.len()
        invariant
            ids == server_ids(servers@),
            i <= servers@.len(),
            forall|j: int| 0 <= j < i ==> ids[j] != id@,
        decreases servers@.len() - i,
    {
        let same = str_eq(servers[i].id.as_str(), id);
        assert(ids[i as int] == servers@[i as int].id@);
        if same {
            proof {
                lemma_first_pos_of(ids, id@);
                let p = first_pos_of(ids, id@);
                assert(ids[i as int] == id@);
                if 0 <= p && p < i {
                    assert(ids[p] != id@);
                }
            }
            return Some(i);
        }
        i = i + 1;
    }
    proof {
        lemma_first_pos_of(ids, id@);
        let p = first_pos_of(ids, id@);
        if p >= 0 {
            assert(ids[p] == id@);
        }
    }
    None
}

fn account_position(accounts: &Vec<SavedAccount>, id: &str) -> (r: Option<usize>)
    ensures
        match r {
            Some(p) => p as int == first_pos_of(account_ids(accounts@), id@) && p < accounts@.len(),
            None => first_pos_of(account_ids(accounts@), id@) < 0,
        },
{
    let ghost ids = account_ids(accounts@);
    proof { lemma_first_pos_of(ids, id@); }
    let mut i: usize = 0;
    while i < accounts.len()
        invariant
            ids == account_ids(accounts@),
            i <= accounts@.len(),
            forall|j: int| 0 <= j < i ==> ids[j] != id@,
        decreases accounts@.len() - i,
    {
        let same = str_eq(accounts[i].id.as_str(), id);
        assert(ids[i as int] == accounts@[i as int].id@);
        if same {
            proof {
                lemma_first_pos_of(ids, id@);
                let p = first_pos_of(ids, id@);
                assert(ids[i as int] == id@);
                if 0 <= p && p < i {
                    assert(ids[p] != id@);
                }
            }
            return Some(i);
        }
        i = i + 1;
    }
    proof {
        lemma_first_pos_of(ids, id@);
        let p = first_pos_of(ids, id@);
        if p >= 0 {
            assert(ids[p] == id@);
        }
    }
    None
}


/// The servers with the given id, kept in order, with the first whose id is
/// `id` given a new last-used time.
pub open spec fn servers_touched(s: Seq<SavedServer>, id: Seq<char>, t: u64) -> Seq<SavedServer> {
    let p = first_pos_of(server_ids(s), id);
    if p < 0 {
        s
    } else {
        s.update(p, SavedServer { last_used: t, ..s[p] })
    }
}

pub open spec fn accounts_touched(s: Seq<SavedAccount>, id: Seq<char>, t: u64) -> Seq<SavedAccount> {
    let p = first_pos_of(account_ids(s), id);
    if p < 0 {
        s
    } else {
        s.update(p, SavedAccount { last_used: t, ..s[p] })
    }
}

/// Keeps the accounts that `keep` holds of, in order.
fn filter_accounts(accounts: &Vec<SavedAccount>, off_server: Option<&str>, not_named: Option<&str>)
    -> (r: Vec<SavedAccount>)
    requires
        off_server is Some != not_named is Some,
    ensures
        off_server matches Some(sid) ==> r@ == accounts@.filter(account_off_server(sid@)),
        not_named matches Some(aid) ==> r@ == accounts@.filter(account_not_named(aid@)),
{
    let ghost pred = match off_server {
        Some(sid) => account_off_server(sid@),
        None => account_not_named(not_named->0@),
    };
    let mut kept: Vec<SavedAccount> = Vec::new();
    let mut i: usize = 0;
    while i < accounts.len()
        invariant
            i <= accounts@.len(),
            off_server is Some != not_named is Some,
            pred == match off_server {
                Some(sid) => account_off_server(sid@),
                None => account_not_named(not_named->0@),
            },
            kept@ == accounts@.take(i as int).filter(pred),
        decreases accounts@.len() - i,
    {
        proof { lemma_filter_take_step(accounts@, pred, i as int); }
        let keep = match off_server {
            Some(sid) => !str_eq(accounts[i].server_id.as_str(), sid),
            None => !str_eq(accounts[i].id.as_str(), not_named.unwrap()),
        };
        if keep {
            kept.push(accounts[i].clone());
        }
        i = i + 1;
    }
    assert(accounts@.take(accounts@.len() as int) =~= accounts@);
    kept
}

impl AccountStore {
    /// Puts `server` in place of the saved server with the same id, or adds it.
    pub fn upsert_server(&mut self, server: SavedServer)
        ensures
            final(self).servers@ == upserted(old(self).servers@, server_ids(old(self).servers@), server.id@, server),
            final(self).accounts@ == old(self).accounts@,
            final(self).last_used_profile == old(self).last_used_profile,
            final(self).current_session == old(self).current_session,
    {
        match server_position(&self.servers, server.id.as_str()) {
            Some(p) => { self.servers.set(p, server); }
            None => { self.servers.push(server); }
        }
    }

    /// Puts `account` in place of the saved account with the same id, or adds it.
    pub fn upsert_account(&mut self, account: SavedAccount)
        ensures
            final(self).accounts@ == upserted(old(self).accounts@, account_ids(old(self).accounts@), account.id@, account),
            final(self).servers@ == old(self).servers@,
            final(self).last_used_profile == old(self).last_used_profile,
            final(self).current_session == old(self).current_session,
    {
        match account_position(&self.accounts, account.id.as_str()) {
            Some(p) => { self.accounts.set(p, account); }
            None => { self.accounts.push(account); }
        }
    }

    /// The saved server with the given id (the first, should ids repeat).
    pub fn into_server(self, server_id: &str) -> (r: Option<SavedServer>)
        ensures
            r == first_with_id(self.servers@, server_ids(self.servers@), server_id@),
    {
        let mut servers = self.servers;
        match server_position(&servers, server_id) {
            Some(p) => Some(servers.remove(p)),
            None => None,
        }
    }

    /// The saved account with the given id (the first, should ids repeat).
    pub fn into_account(self, account_id: &str) -> (r: Option<SavedAccount>)
        ensures
            r == first_with_id(self.accounts@, account_ids(self.accounts@), account_id@),
    {
        let mut accounts = self.accounts;
        match account_position(&accounts, account_id) {
            Some(p) => Some(accounts.remove(p)),
            None => None,
        }
    }

    /// The saved accounts on the given server, in their order.
    pub fn into_accounts_for_server(self, server_id: &str) -> (r: Vec<SavedAccount>)
        ensures
            r@ == self.accounts@.filter(account_of_server(server_id@)),
    {
        let accounts = &self.accounts;
        let ghost pred = account_of_server(server_id@);
        let mut kept: Vec<SavedAccount> = Vec::new();
        let mut i: usize = 0;
        while i < accounts.len()
            invariant
                i <= accounts@.len(),
                pred == account_of_server(server_id@),
                kept@ == accounts@.take(i as int).filter(pred),
            decreases accounts@.len() - i,
        {
            proof { lemma_filter_take_step(accounts@, pred, i as int); }
            if str_eq(accounts[i].server_id.as_str(), server_id) {
                kept.push(accounts[i].clone());
            }
            i = i + 1;
        }
        assert(accounts@.take(accounts@.len() as int) =~= accounts@);
        kept
    }

    /// Forgets a server and its accounts; answers the ids of the accounts
    /// forgotten, whose credentials are to be cleared.
    pub fn remove_server(&mut self, server_id: &str) -> (removed: Vec<String>)
        ensures
            final(self).servers@ == old(self).servers@.filter(server_on(server_id@)),
            final(self).accounts@ == old(self).accounts@.filter(account_off_server(server_id@)),
            removed@.map_values(|s: String| s@)
                == account_ids(old(self).accounts@.filter(account_of_server(server_id@))),
            final(self).last_used_profile == old(self).last_used_profile,
            final(self).current_session == old(self).current_session,
    {
        let ghost apred = account_of_server(server_id@);
        let mut removed: Vec<String> = Vec::new();
        let mut i: usize = 0;
        while i < self.accounts.len()
            invariant
                i <= self.accounts@.len(),
                self.accounts@ == old(self).accounts@,
                apred == account_of_server(server_id@),
                removed@.map_values(|s: String| s@) == account_ids(self.accounts@.take(i as int).filter(apred)),
            decreases self.accounts@.len() - i,
        {
            proof { lemma_filter_take_step(self.accounts@, apred, i as int); }
            if str_eq(self.accounts[i].server_id.as_str(), server_id) {
                let ghost before = removed@;
                removed.push(self.accounts[i].id.clone());
                assert(removed@.map_values(|s: String| s@)
                    =~= before.map_values(|s: String| s@).push(self.accounts@[i as int].id@));
                assert(account_ids(self.accounts@.take(i + 1).filter(apred))
                    =~= account_ids(self.accounts@.take(i as int).filter(apred)).push(self.accounts@[i as int].id@));
            }
            i = i + 1;
        }
        assert(self.accounts@.take(self.accounts@.len() as int) =~= self.accounts@);

        let ghost spred = server_on(server_id@);
        let mut servers: Vec<SavedServer> = Vec::new();
        let mut j: usize = 0;
        while j < self.servers.len()
            invariant
                j <= self.servers@.len(),
                self.servers@ == old(self).servers@,
                spred == server_on(server_id@),
                servers@ == self.servers@.take(j as int).filter(spred),
            decreases self.servers@.len() - j,
        {
            proof { lemma_filter_take_step(self.servers@, spred, j as int); }
            if !str_eq(self.servers[j].id.as_str(), server_id) {
                servers.push(self.servers[j].clone());
            }
            j = j + 1;
        }
        assert(self.servers@.take(self.servers@.len() as int) =~= self.servers@);
        let accounts = filter_accounts(&self.accounts, Some(server_id), None);
        self.servers = servers;
        self.accounts = accounts;
        removed
    }

    /// Forgets an account.
    pub fn remove_account(&mut self, account_id: &str)
        ensures
            final(self).accounts@ == old(self).accounts@.filter(account_not_named(account_id@)),
            final(self).servers@ == old(self).servers@,
            final(self).last_used_profile == old(self).last_used_profile,
            final(self).current_session == old(self).current_session,
    {
        let accounts = filter_accounts(&self.accounts, None, Some(account_id));
        self.accounts = accounts;
    }

    /// Records `server_id:account_id` as the last used profile and gives the
    /// server and the account the given last-used times.
    pub fn touch_profile(&mut self, server_id: &str, account_id: &str, server_time: u64, account_time: u64)
        ensures
            final(self).last_used_profile matches Some(p) && p@ == profile_text(server_id@, account_id@),
            final(self).servers@ == servers_touched(old(self).servers@, server_id@, server_time),
            final(self).accounts@ == accounts_touched(old(self).accounts@, account_id@, account_time),
            final(self).current_session == old(self).current_session,
    {
        self.last_used_profile = Some(join_with_char(server_id, ":", account_id));
        proof { reveal_strlit(":"); }
        match server_position(&self.servers, server_id) {
            Some(p) => {
                let mut s = self.servers[p].clone();
                s.last_used = server_time;
                self.servers.set(p, s);
            }
            None => {}
        }
        match account_position(&self.accounts, account_id) {
            Some(p) => {
                let mut a = self.accounts[p].clone();
                a.last_used = account_time;
                self.accounts.set(p, a);
            }
            None => {}
        }
    }

    /// Records `server_id:account_id` as the last used profile, and marks the
    /// server and the account as used now.
    pub fn record_last_used_profile(&mut self, server_id: &str, account_id: &str)
        ensures
            final(self).last_used_profile matches Some(p) && p@ == profile_text(server_id@, account_id@),
            exists|ts: u64, ta: u64|
                final(self).servers@ == servers_touched(old(self).servers@, server_id@, ts)
                && final(self).accounts@ == accounts_touched(old(self).accounts@, account_id@, ta),
            final(self).current_session == old(self).current_session,
    {
        let ts = now_millis();
        let ta = now_millis();
        self.touch_profile(server_id, account_id, ts, ta);
    }

    /// The server and account ids of the last used profile.
    pub fn last_used_profile_ids(&self) -> (r: Option<(String, String)>)
        ensures
            match self.last_used_profile {
                None => r is None,
                Some(p) => match split_first(p@, ':') {
                    None => r is None,
                    Some((s, a)) => r matches Some((rs, ra)) && rs@ == s && ra@ == a,
                },
            },
    {
        match &self.last_used_profile {
            None => None,
            Some(p) => split_once_char(p.as_str(), ':'),
        }
    }

    /// Records `server_id:account_id` as the current session.
    pub fn set_current_session(&mut self, server_id: &str, account_id: &str)
        ensures
            final(self).current_session matches Some(p) && p@ == profile_text(server_id@, account_id@),
            final(self).servers@ == old(self).servers@,
            final(self).accounts@ == old(self).accounts@,
            final(self).last_used_profile == old(self).last_used_profile,
    {
        proof { reveal_strlit(":"); }
        self.current_session = Some(join_with_char(server_id, ":", account_id));
    }

    /// The server id, account id and token of the current session, given the
    /// token stored for it; `None` when there is no session, no token, or the
    /// session text has no ':'.
    pub fn current_session_with_token(&self, token: Option<String>) -> (r: Option<(String, String, String)>)
        ensures
            match (self.current_session, token) {
                (Some(p), Some(t)) => match split_first(p@, ':') {
                    None => r is None,
                    Some((s, a)) => r matches Some((rs, ra, rt)) && rs@ == s && ra@ == a && rt == t,
                },
                _ => r is None,
            },
    {
        match &self.current_session {
            None => None,
            Some(p) => match token {
                None => None,
                Some(t) => match split_once_char(p.as_str(), ':') {
                    None => None,
                    Some((s, a)) => Some((s, a, t)),
                },
            },
        }
    }

    /// Forgets the current session.
    pub fn clear_current_session(&mut self)
        ensures
            final(self).current_session is None,
            final(self).servers@ == old(self).servers@,
            final(self).accounts@ == old(self).accounts@,
            final(self).last_used_profile == old(self).last_used_profile,
    {
        self.current_session = None;
    }
}


proof fn lemma_first_pos_of_push_other<A>(s: Seq<A>, x: A, c: A)
    requires
        x != c,
    ensures
        first_pos_of(s.push(x), c) == first_pos_of(s, c),
    decreases s.len(),
{
    if s.len() > 0 && s[0] != c {
        assert(s.push(x).drop_first() =~= s.drop_first().push(x));
        lemma_first_pos_of_push_other(s.drop_first(), x, c);
    } else if s.len() == 0 {
        assert(s.push(x).drop_first() =~= s);
    }
}

/// Once a server is saved, looking up its id finds that very record.
pub proof fn law_upsert_server_then_find(servers: Seq<SavedServer>, x: SavedServer)
    ensures
        ({
            let u = upserted(servers, server_ids(servers), x.id@, x);
            first_with_id(u, server_ids(u), x.id@) == Some(x)
        }),
{
    let ids = server_ids(servers);
    let u = upserted(servers, ids, x.id@, x);
    lemma_first_pos_of(ids, x.id@);
    let p = first_pos_of(ids, x.id@);
    if p < 0 {
        assert(server_ids(u) =~= ids + seq![x.id@] + Seq::<Seq<char>>::empty());
        lemma_first_pos_of_concat(ids, x.id@, Seq::<Seq<char>>::empty());
    } else {
        assert(server_ids(u) =~= ids);
    }
}

/// Saving a server leaves what the other ids find unchanged.
pub proof fn law_upsert_server_keeps_others(servers: Seq<SavedServer>, x: SavedServer, other: Seq<char>)
    requires
        other != x.id@,
    ensures
        ({
            let u = upserted(servers, server_ids(servers), x.id@, x);
            first_with_id(u, server_ids(u), other) == first_with_id(servers, server_ids(servers), other)
        }),
{
    let ids = server_ids(servers);
    let u = upserted(servers, ids, x.id@, x);
    lemma_first_pos_of(ids, x.id@);
    lemma_first_pos_of(ids, other);
    let p = first_pos_of(ids, x.id@);
    if p < 0 {
        assert(server_ids(u) =~= ids.push(x.id@));
        lemma_first_pos_of_push_other(ids, x.id@, other);
    } else {
        assert(server_ids(u) =~= ids);
        let q = first_pos_of(ids, other);
        if q >= 0 {
            assert(q != p);
        }
    }
}

/// Once an account is saved, looking up its id finds that very record.
pub proof fn law_upsert_account_then_find(accounts: Seq<SavedAccount>, x: SavedAccount)
    ensures
        ({
            let u = upserted(accounts, account_ids(accounts), x.id@, x);
            first_with_id(u, account_ids(u), x.id@) == Some(x)
        }),
{
    let ids = account_ids(accounts);
    let u = upserted(accounts, ids, x.id@, x);
    lemma_first_pos_of(ids, x.id@);
    let p = first_pos_of(ids, x.id@);
    if p < 0 {
        assert(account_ids(u) =~= ids + seq![x.id@] + Seq::<Seq<char>>::empty());
        lemma_first_pos_of_concat(ids, x.id@, Seq::<Seq<char>>::empty());
    } else {
        assert(account_ids(u) =~= ids);
    }
}

/// After a server is forgotten, neither it nor any account on it is left,
/// and every server and account not concerned is still there.
pub proof fn law_remove_server_forgets_all(servers: Seq<SavedServer>, accounts: Seq<SavedAccount>, id: Seq<char>)
    ensures
        forall|i: int| 0 <= i < servers.filter(server_on(id)).len()
            ==> (#[trigger] servers.filter(server_on(id))[i]).id@ != id,
        forall|i: int| 0 <= i < accounts.filter(account_off_server(id)).len()
            ==> (#[trigger] accounts.filter(account_off_server(id))[i]).server_id@ != id,
        forall|i: int| 0 <= i < servers.len() && servers[i].id@ != id
            ==> servers.filter(server_on(id)).contains(#[trigger] servers[i]),
        forall|i: int| 0 <= i < accounts.len() && accounts[i].server_id@ != id
            ==> accounts.filter(account_off_server(id)).contains(#[trigger] accounts[i]),
{
    broadcast use vstd::seq_lib::group_filter_ensures;
    assert forall|i: int| 0 <= i < servers.filter(server_on(id)).len()
        implies (#[trigger] servers.filter(server_on(id))[i]).id@ != id by {
        servers.lemma_filter_pred(server_on(id), i);
    }
    assert forall|i: int| 0 <= i < accounts.filter(account_off_server(id)).len()
        implies (#[trigger] accounts.filter(account_off_server(id))[i]).server_id@ != id by {
        accounts.lemma_filter_pred(account_off_server(id), i);
    }
    assert forall|i: int| 0 <= i < servers.len() && servers[i].id@ != id
        implies servers.filter(server_on(id)).contains(#[trigger] servers[i]) by {
        servers.lemma_filter_contains(server_on(id), i);
    }
    assert forall|i: int| 0 <= i < accounts.len() && accounts[i].server_id@ != id
        implies accounts.filter(account_off_server(id)).contains(#[trigger] accounts[i]) by {
        accounts.lemma_filter_contains(account_off_server(id), i);
    }
}

/// Reading back a recorded profile or session gives the ids that were
/// recorded, when the server id holds no ':' (the account id may).
pub proof fn law_profile_round_trip(server_id: Seq<char>, account_id: Seq<char>)
    requires
        forall|j: int| 0 <= j < server_id.len() ==> server_id[j] != ':',
    ensures
        split_first(profile_text(server_id, account_id), ':') == Some((server_id, account_id)),
{
    let t = profile_text(server_id, account_id);
    lemma_first_pos_of_concat(server_id, ':', account_id);
    assert(t.take(server_id.len() as int) =~= server_id);
    assert(t.skip(server_id.len() as int + 1) =~= account_id);
}

/// Server ids made by `SavedServer::new` are UUID texts, so the profile of
/// any such server reads back exactly.
pub proof fn law_profile_round_trip_for_new_ids(server_id: Seq<char>, account_id: Seq<char>)
    requires
        is_uuid_text(server_id),
    ensures
        split_first(profile_text(server_id, account_id), ':') == Some((server_id, account_id)),
{
    lemma_uuid_has_no_colon(server_id);
    law_profile_round_trip(server_id, account_id);
}


/// The account name under which the session token is kept.
pub const SESSION_ACCOUNT: &'static str = "session";

/// The kind of secret the session token is kept as.
pub const SESSION_TOKEN_KIND: &'static str = "token";

pub open spec fn api_key_kind() -> Seq<char> {
    seq!['a', 'p', 'i', '_', 'k', 'e', 'y']
}

pub open spec fn username_kind() -> Seq<char> {
    seq!['u', 's', 'e', 'r', 'n', 'a', 'm', 'e']
}

pub open spec fn password_kind() -> Seq<char> {
    seq!['p', 'a', 's', 's', 'w', 'o', 'r', 'd']
}

pub open spec fn keyring_prefix() -> Seq<char> {
    seq!['t', 'r', 'u', 'e', 'h', 'u', 'b', '_']
}

fn api_key_str() -> (s: &'static str)
    ensures
        s@ == api_key_kind(),
{
    proof { reveal_strlit("api_key"); }
    assert("api_key"@ =~= api_key_kind());
    "api_key"
}

fn username_str() -> (s: &'static str)
    ensures
        s@ == username_kind(),
{
    proof { reveal_strlit("username"); }
    assert("username"@ =~= username_kind());
    "username"
}

fn password_str() -> (s: &'static str)
    ensures
        s@ == password_kind(),
{
    proof { reveal_strlit("password"); }
    assert("password"@ =~= password_kind());
    "password"
}

/// The service name under which the secrets of an account are kept:
/// `truehub_` followed by the account id.
pub fn keyring_service(account_id: &str) -> (r: String)
    ensures
        r@ == keyring_prefix() + account_id@,
{
    proof { reveal_strlit("truehub_"); }
    let mut out = String::new();
    out.append("truehub_");
    out.append(account_id);
    assert("truehub_"@ =~= keyring_prefix());
    out
}

/// The secrets to keep for an account, as (kind, value) pairs in the order
/// they are written: the API key for an API-key account; the user name, then
/// the password, for a password account. Secrets not given are skipped.
pub open spec fn planned_writes(
    method: LoginMethod,
    api_key: Option<Seq<char>>,
    username: Option<Seq<char>>,
    password: Option<Seq<char>>,
) -> Seq<(Seq<char>, Seq<char>)> {
    match method {
        LoginMethod::ApiKey => match api_key {
            Some(k) => seq![(api_key_kind(), k)],
            None => Seq::empty(),
        },
        LoginMethod::Password => {
            let u = match username {
                Some(u) => seq![(username_kind(), u)],
                None => Seq::empty(),
            };
            let p = match password {
                Some(p) => seq![(password_kind(), p)],
                None => Seq::empty(),
            };
            u + p
        },
    }
}

pub open spec fn opt_view(o: Option<&str>) -> Option<Seq<char>> {
    match o {
        Some(s) => Some(s@),
        None => None,
    }
}

pub open spec fn pair_views(v: Seq<(String, String)>) -> Seq<(Seq<char>, Seq<char>)> {
    v.map_values(|p: (String, String)| (p.0@, p.1@))
}

fn owned(s: &str) -> (r: String)
    ensures
        r@ == s@,
{
    let mut out = String::new();
    out.append(s);
    assert(out@ =~= s@);
    out
}

/// The (kind, value) pairs to write to the keyring for an account.
pub fn credential_writes(
    login_method: &LoginMethod,
    api_key: Option<&str>,
    username: Option<&str>,
    password: Option<&str>,
) -> (w: Vec<(String, String)>)
    ensures
        pair_views(w@) == planned_writes(*login_method, opt_view(api_key), opt_view(username), opt_view(password)),
{
    let mut w: Vec<(String, String)> = Vec::new();
    match login_method {
        LoginMethod::ApiKey => {
            if let Some(k) = api_key {
                w.push((owned(api_key_str()), owned(k)));
            }
        }
        LoginMethod::Password => {
            if let Some(u) = username {
                w.push((owned(username_str()), owned(u)));
            }
            if let Some(p) = password {
                w.push((owned(password_str()), owned(p)));
            }
        }
    }
    assert(pair_views(w@) =~= planned_writes(*login_method, opt_view(api_key), opt_view(username), opt_view(password)));
    w
}

/// The kinds of secret kept for an account that signs in with `method`.
pub open spec fn read_kinds(method: LoginMethod) -> Seq<Seq<char>> {
    match method {
        LoginMethod::ApiKey => seq![api_key_kind()],
        LoginMethod::Password => seq![username_kind(), password_kind()],
    }
}

/// The kinds of secret cleared when an account is forgotten.
pub open spec fn cleared_kinds() -> Seq<Seq<char>> {
    seq![api_key_kind(), username_kind(), password_kind()]
}

/// Whether every secret of `method` is given.
pub open spec fn all_secrets_given(
    method: LoginMethod,
    api_key: Option<Seq<char>>,
    username: Option<Seq<char>>,
    password: Option<Seq<char>>,
) -> bool {
    match method {
        LoginMethod::ApiKey => api_key is Some,
        LoginMethod::Password => username is Some && password is Some,
    }
}

/// The kinds of secret read back for an account: the API key alone, or the
/// user name and the password.
pub fn credential_reads(login_method: &LoginMethod) -> (r: (String, Option<String>))
    ensures
        match *login_method {
            LoginMethod::ApiKey => r.0@ == api_key_kind() && r.1 is None,
            LoginMethod::Password => r.0@ == username_kind() && (r.1 matches Some(p) && p@ == password_kind()),
        },
        seq![r.0@] + (match r.1 {
            Some(k) => seq![k@],
            None => Seq::<Seq<char>>::empty(),
        }) == read_kinds(*login_method),
{
    match login_method {
        LoginMethod::ApiKey => (owned(api_key_str()), None),
        LoginMethod::Password => (owned(username_str()), Some(owned(password_str()))),
    }
}

/// The kinds of secret cleared when an account is forgotten, in order.
pub fn credential_kinds_to_clear() -> (r: Vec<String>)
    ensures
        r@.map_values(|s: String| s@) == cleared_kinds(),
{
    let mut r: Vec<String> = Vec::new();
    r.push(owned(api_key_str()));
    r.push(owned(username_str()));
    r.push(owned(password_str()));
    assert(r@.map_values(|s: String| s@) =~= cleared_kinds());
    r
}

/// Every secret written for an account is of a kind read back for its sign-in
/// method, and of a kind cleared when the account is forgotten; when every
/// secret of the method is given, the kinds written are exactly the kinds read
/// back, in the same order.
pub proof fn law_credentials_written_are_read_and_cleared(
    method: LoginMethod,
    api_key: Option<Seq<char>>,
    username: Option<Seq<char>>,
    password: Option<Seq<char>>,
)
    ensures
        forall|i: int| 0 <= i < planned_writes(method, api_key, username, password).len() ==> {
            let kind = #[trigger] planned_writes(method, api_key, username, password)[i].0;
            read_kinds(method).contains(kind) && cleared_kinds().contains(kind)
        },
        all_secrets_given(method, api_key, username, password) ==>
            planned_writes(method, api_key, username, password).map_values(
                |p: (Seq<char>, Seq<char>)| p.0,
            ) == read_kinds(method),
{
    let w = planned_writes(method, api_key, username, password);
    assert forall|i: int| 0 <= i < w.len() implies {
        let kind = #[trigger] w[i].0;
        read_kinds(method).contains(kind) && cleared_kinds().contains(kind)
    } by {
        let kind = w[i].0;
        assert(cleared_kinds()[0] == api_key_kind());
        assert(cleared_kinds()[1] == username_kind());
        assert(cleared_kinds()[2] == password_kind());
        match method {
            LoginMethod::ApiKey => {
                assert(kind == api_key_kind());
                assert(read_kinds(method)[0] == kind);
                assert(cleared_kinds()[0] == kind);
            },
            LoginMethod::Password => {
                if kind == username_kind() {
                    assert(read_kinds(method)[0] == kind);
                    assert(cleared_kinds()[1] == kind);
                } else {
                    assert(kind == password_kind());
                    assert(read_kinds(method)[1] == kind);
                    assert(cleared_kinds()[2] == kind);
                }
            },
        }
    }
    if all_secrets_given(method, api_key, username, password) {
        assert(w.map_values(|p: (Seq<char>, Seq<char>)| p.0) =~= read_kinds(method));
    }
}

/// Different accounts keep their secrets under different keyring services.
pub proof fn law_keyring_service_distinct(a: Seq<char>, b: Seq<char>)
    requires
        a != b,
    ensures
        keyring_prefix() + a != keyring_prefix() + b,
{
    if keyring_prefix() + a == keyring_prefix() + b {
        let n = keyring_prefix().len();
        assert((keyring_prefix() + a).subrange(n as int, (n + a.len()) as int) =~= a);
        assert((keyring_prefix() + b).subrange(n as int, (n + b.len()) as int) =~= b);
    }
}

} // verus!
