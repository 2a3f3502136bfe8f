use vstd::prelude::*;
use crate::text::string_of;

verus! {

/// The home directory of a user who has none set.
pub fn default_home() -> (s: String)
    ensures
        s@ == "/var/empty"@,
{
    string_of("/var/empty")
}

/// The shell of a user who has none set.
pub fn default_shell() -> (s: String)
    ensures
        s@ == "/usr/bin/zsh"@,
{
    string_of("/usr/bin/zsh")
}

/// Options that are on unless turned off.
pub fn default_true() -> (b: bool)
    ensures
        b,
{
    true
}

/// The primary group of a user.
#[derive(Debug, Clone)]
pub struct UserGroup {
    pub id: i32,
    pub bsdgrp_gid: i32,
    pub bsdgrp_group: Option<String>,
}

#[derive(Debug, Clone)]
pub struct PasswordHistoryEntry {
    pub hash: String,
    pub timestamp: String,
}

/// A lookup of a user by name or uid.
#[derive(Debug, Clone)]
pub struct GetUserObjRequest {
    pub username: Option<String>,
    pub uid: Option<i32>,
    pub get_groups: Option<bool>,
    pub sid_info: Option<bool>,
}

/// A user as `user.get_obj` describes it.
#[derive(Debug, Clone)]
pub struct UserObjResponse {
    pub pw_name: String,
    pub pw_gecos: String,
    pub pw_dir: String,
    pub pw_shell: String,
    pub pw_uid: i32,
    pub pw_gid: i32,
    pub grouplist: Option<Vec<i32>>,
    pub sid: Option<String>,
    pub source: UserSource,
    pub local: bool,
}

#[derive(Debug, Clone, PartialEq, Eq, Structural)]
pub enum UserSource {
    Local,
    ActiveDirectory,
    Ldap,
}

#[derive(Debug, Clone)]
pub struct ShellChoice {
    pub path: String,
    pub name: String,
}

/// A request to change the password of a user.
#[derive(Debug, Clone)]
pub struct ChangeUserPasswordRequest {
    pub username: String,
    pub old_password: String,
    pub new_password: String,
}

/// The fields of a user that an update may change; those left `None` stay.
#[derive(Debug, Clone)]
pub struct UserUpdate {
    pub username: Option<String>,
    pub full_name: Option<String>,
    pub shell: Option<String>,
    pub email: Option<String>,
    pub password: Option<String>,
    pub password_disabled: Option<bool>,
    pub locked: Option<bool>,
    pub sudo_commands: Option<Vec<String>>,
    pub sudo_commands_nopasswd: Option<Vec<String>>,
    pub sshpubkey: Option<String>,
    pub group: Option<i32>,
    pub groups: Option<Vec<i32>>,
    pub home: Option<String>,
    pub home_create: Option<bool>,
    pub home_mode: Option<String>,
    pub uid: Option<i32>,
    pub smb: Option<bool>,
    pub subuid: Option<serde_json::Value>,
    pub group_create: Option<bool>,
    pub generate_random_password: Option<bool>,
    pub roles: Option<Vec<String>>,
}

/// An update of the user with the given id.
#[derive(Debug, Clone)]
pub struct UserUpdateRequest {
    pub id: i32,
    pub user_update: UserUpdate,
}

/// The user after an update.
#[derive(Debug, Clone)]
pub struct UserUpdateResponse {
    pub id: i32,
    pub uid: i32,
    pub username: String,
    pub unixhash: Option<String>,
    pub smbhash: Option<String>,
    pub home: String,
    pub shell: String,
    pub full_name: String,
    pub builtin: bool,
    pub smb: bool,
    pub subuid: Option<serde_json::Value>,
    pub password_disabled: bool,
    pub locked: bool,
    pub sudo_commands: Option<Vec<String>>,
    pub sudo_commands_nopasswd: Option<Vec<String>>,
    pub email: Option<String>,
    pub group: UserGroup,
    pub groups: Vec<i32>,
    pub sshpubkey: Option<String>,
    pub immutable: bool,
    pub twofactor_auth_configured: bool,
    pub local: bool,
    pub id_type_both: bool,
    pub nt_name: Option<String>,
    pub sid: Option<String>,
    pub roles: Vec<String>,
    pub password_change_required: bool,
    pub password_last_change: Option<String>,
    pub password_age_days: Option<i32>,
    pub password_history: Option<Vec<PasswordHistoryEntry>>,
    pub password: Option<String>,
}

} // verus!
