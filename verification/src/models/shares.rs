use vstd::prelude::*;

verus! {

/// An SMB share as the server lists it.
#[derive(Debug, Clone)]
pub struct SmbShare {
    pub id: i32,
    pub purpose: Option<String>,
    pub path: String,
    pub path_suffix: Option<String>,
    pub home: Option<bool>,
    pub name: String,
    pub comment: Option<String>,
    pub ro: Option<bool>,
    pub browsable: bool,
    pub recyclebin: Option<bool>,
    pub guestok: Option<bool>,
    pub hostsallow: Option<Vec<String>>,
    pub hostsdeny: Option<Vec<String>>,
    pub auxsmbconf: Option<String>,
    pub aapl_name_mangling: Option<bool>,
    pub abe: Option<bool>,
    pub acl: Option<bool>,
    pub durablehandle: Option<bool>,
    pub streams: Option<bool>,
    pub timemachine: Option<bool>,
    pub timemachine_quota: Option<i32>,
    pub vuid: Option<String>,
    pub shadowcopy: Option<bool>,
    pub fsrvp: Option<bool>,
    pub enabled: bool,
    pub afp: Option<bool>,
    pub audit: SmbAudit,
    pub path_local: Option<String>,
    pub locked: bool,
}

/// The audit settings of an SMB share.
#[derive(Debug, Clone)]
pub struct SmbAudit {
    pub enable: bool,
    pub watch_list: Vec<String>,
    pub ignore_list: Vec<String>,
}

/// An NFS share as the server lists it.
#[derive(Debug, Clone)]
pub struct NfsShare {
    pub id: i32,
    pub path: String,
    pub aliases: Vec<String>,
    pub comment: String,
    pub networks: Vec<String>,
    pub hosts: Vec<String>,
    pub ro: bool,
    pub maproot_user: Option<String>,
    pub maproot_group: Option<String>,
    pub mapall_user: Option<String>,
    pub mapall_group: Option<String>,
    pub security: Vec<String>,
    pub enabled: bool,
    pub locked: bool,
    pub expose_snapshots: bool,
}

} // verus!
