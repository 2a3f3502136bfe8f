use vstd::prelude::*;
use std::collections::HashMap;
use crate::text::{i64_to_decimal, int_decimal, join_seq, join_strings, string_of, string_views};

verus! {

#[derive(Debug, Clone)]
pub struct VersionInfo {
    pub changelog: Option<String>,
    pub upgrade_notes: Option<String>,
}

/// What the catalog says of an application.
#[derive(Debug, Clone)]
pub struct Metadata {
    pub app_version: Option<String>,
    pub categories: Option<Vec<String>>,
    pub description: Option<String>,
    pub home: Option<String>,
    pub icon: Option<String>,
    pub keywords: Option<Vec<String>>,
    pub title: Option<String>,
    pub train: Option<String>,
    pub screenshots: Option<Vec<String>>,
    pub sources: Option<Vec<String>>,
    pub maintainers: Option<Vec<Maintainer>>,
    pub capabilities: Option<Vec<Capability>>,
    pub date_added: Option<String>,
    pub last_update: Option<String>,
    pub changelog_url: Option<String>,
    pub lib_version: Option<String>,
    pub lib_version_hash: Option<String>,
    pub run_as_context: Option<Vec<RunAsContext>>,
    pub host_mounts: Option<Vec<HostMount>>,
}

/// A time as the server writes it, possibly missing.
#[derive(Debug, Clone)]
pub struct TruenasDate {
    pub date: Option<i64>,
}

/// An application available from the catalog.
#[derive(Debug, Clone)]
pub struct AppAvailableItem {
    pub app_readme: Option<String>,
    pub categories: Option<Vec<String>>,
    pub description: String,
    pub healthy: Option<bool>,
    pub healthy_error: Option<String>,
    pub home: String,
    pub location: String,
    pub latest_version: Option<String>,
    pub latest_app_version: Option<String>,
    pub latest_human_version: Option<String>,
    pub last_update: Option<TruenasDate>,
    pub name: String,
    pub recommended: bool,
    pub title: String,
    pub maintainers: Vec<Maintainer>,
    pub tags: Option<Vec<String>>,
    pub screenshots: Option<Vec<String>>,
    pub sources: Option<Vec<String>>,
    pub icon_url: Option<String>,
    pub catalog: Option<String>,
    pub installed: bool,
    pub train: String,
}

pub open spec fn comma_space() -> Seq<char> {
    seq![',', ' ']
}

pub open spec fn unknown_text() -> Seq<char> {
    seq!['U', 'n', 'k', 'n', 'o', 'w', 'n']
}

impl AppAvailableItem {
    /// The last update time in decimal, or `Unknown` when there is none.
    pub fn last_update_string(&self) -> (s: String)
        ensures
            s@ == match self.last_update {
                Some(TruenasDate { date: Some(d) }) => int_decimal(d as int),
                _ => unknown_text(),
            },
    {
        match &self.last_update {
            Some(d) => match d.date {
                Some(v) => i64_to_decimal(v),
                None => {
                    proof { reveal_strlit("Unknown"); }
                    assert("Unknown"@ =~= unknown_text());
                    string_of("Unknown")
                },
            },
            None => {
                proof { reveal_strlit("Unknown"); }
                assert("Unknown"@ =~= unknown_text());
                string_of("Unknown")
            },
        }
    }

    /// The tags joined with `, `; empty when there are none.
    pub fn tags_string(&self) -> (s: String)
        ensures
            s@ == match self.tags {
                Some(t) => join_seq(string_views(t@), comma_space()),
                None => Seq::<char>::empty(),
            },
    {
        match &self.tags {
            Some(t) => {
                proof { reveal_strlit(", "); }
                assert(", "@ =~= comma_space());
                join_strings(t, ", ")
            },
            None => String::new(),
        }
    }
}

#[derive(Debug, Clone)]
pub struct Capability {
    pub name: String,
    pub description: String,
}

#[derive(Debug, Clone)]
pub struct Maintainer {
    pub name: String,
    pub email: Option<String>,
    pub url: Option<String>,
}

#[derive(Debug, Clone)]
pub struct RunAsContext {
    pub description: Option<String>,
    pub uid: Option<i32>,
    pub gid: Option<i32>,
    pub user_name: Option<String>,
    pub group_name: Option<String>,
}

#[derive(Debug, Clone)]
pub struct HostMount {
    pub host_path: Option<String>,
    pub description: Option<String>,
}

/// What an installed application runs.
#[derive(Debug, Clone)]
pub struct ActiveWorkloads {
    pub containers: i32,
    pub used_ports: Option<Vec<UsedPort>>,
    pub container_details: Option<Vec<ContainerDetail>>,
    pub volumes: Option<Vec<Volume>>,
    pub images: Option<Vec<String>>,
    pub networks: Option<Vec<Network>>,
}

#[derive(Debug, Clone)]
pub struct UsedPort {
    pub container_port: i32,
    pub protocol: String,
    pub host_ports: Vec<HostPort>,
}

#[derive(Debug, Clone)]
pub struct HostPort {
    pub host_port: i32,
    pub host_ip: String,
}

#[derive(Debug, Clone)]
pub struct ContainerDetail {
    pub id: String,
    pub service_name: String,
    pub image: String,
    pub port_config: Option<Vec<UsedPort>>,
    pub state: String,
    pub volume_mounts: Option<Vec<Volume>>,
}

#[derive(Debug, Clone)]
pub struct Volume {
    pub source: String,
    pub destination: String,
    pub mode: Option<String>,
    pub typ: Option<String>,
}

#[derive(Debug, Clone)]
pub struct Network {
    pub name: String,
    pub id: String,
    pub labels: Option<HashMap<String, String>>,
    pub created: Option<String>,
    pub scope: Option<String>,
    pub driver: Option<String>,
    pub enable_ipv6: Option<bool>,
    pub ipam: Option<Ipam>,
}

#[derive(Debug, Clone)]
pub struct Ipam {
    pub driver: Option<String>,
    pub options: Option<HashMap<String, String>>,
    pub config: Option<Vec<IpamConfig>>,
}

#[derive(Debug, Clone)]
pub struct IpamConfig {
    pub subnet: Option<String>,
    pub gateway: Option<String>,
}

/// The version an upgrade goes to unless another is named.
pub fn default_app_version() -> (s: String)
    ensures
        s@ == "latest"@,
{
    string_of("latest")
}

/// Options that are on unless turned off.
pub fn default_true() -> (b: bool)
    ensures
        b,
{
    true
}

#[derive(Debug, Clone)]
pub struct AppUpgradeSummaryResult {
    pub latest_version: String,
    pub latest_human_version: String,
    pub upgrade_version: String,
    pub upgrade_human_version: String,
    pub available_versions_for_upgrade: Vec<AvailableVersionForUpgrade>,
    pub changelog: Option<String>,
}

#[derive(Debug, Clone)]
pub struct AvailableVersionForUpgrade {
    pub version: String,
    pub human_version: String,
}

/// An upgrade request.
#[derive(Debug, Clone)]
pub struct AppUpgradeRequest {
    pub app_version: String,
}

impl Default for AppUpgradeRequest {
    fn default() -> (r: Self)
        ensures
            r.app_version@ == "latest"@,
    {
        AppUpgradeRequest { app_version: default_app_version() }
    }
}

/// A rollback request.
#[derive(Debug, Clone)]
pub struct RollbackOptions {
    pub app_version: String,
    pub rollback_snapshot: bool,
}

impl Default for RollbackOptions {
    fn default() -> (r: Self)
        ensures
            r.app_version@ == "latest"@,
            r.rollback_snapshot,
    {
        RollbackOptions { app_version: default_app_version(), rollback_snapshot: default_true() }
    }
}

/// How to delete an application.
#[derive(Debug, Clone)]
pub struct DeleteAppOptions {
    pub remove_images: bool,
    pub remove_ix_volumes: bool,
    pub force_remove_ix_volumes: bool,
    pub force_remove_custom_app: bool,
}

impl Default for DeleteAppOptions {
    fn default() -> (r: Self)
        ensures
            r.remove_images,
            !r.remove_ix_volumes,
            !r.force_remove_ix_volumes,
            !r.force_remove_custom_app,
    {
        DeleteAppOptions {
            remove_images: default_true(),
            remove_ix_volumes: false,
            force_remove_ix_volumes: false,
            force_remove_custom_app: false,
        }
    }
}

#[derive(Debug, Clone)]
pub struct AppQueryExtra {
    pub host_ip: Option<String>,
    pub include_app_schema: bool,
    pub retrieve_config: bool,
}

impl Default for AppQueryExtra {
    fn default() -> (r: Self)
        ensures
            r.host_ip is None,
            !r.include_app_schema,
            !r.retrieve_config,
    {
        AppQueryExtra { host_ip: None, include_app_schema: false, retrieve_config: false }
    }
}

/// How to query the installed applications.
#[derive(Debug, Clone)]
pub struct AppQueryOptions {
    pub extra: AppQueryExtra,
    pub order_by: Vec<String>,
    pub select: Vec<String>,
    pub count: bool,
    pub get: bool,
    pub offset: i32,
    pub limit: i32,
    pub force_sql_filters: bool,
}

impl Default for AppQueryOptions {
    fn default() -> (r: Self)
        ensures
            r.extra.host_ip is None,
            !r.extra.include_app_schema,
            !r.extra.retrieve_config,
            r.order_by@.len() == 0,
            r.select@.len() == 0,
            !r.count,
            !r.get,
            r.offset == 0,
            r.limit == 0,
            !r.force_sql_filters,
    {
        AppQueryOptions {
            extra: AppQueryExtra::default(),
            order_by: Vec::new(),
            select: Vec::new(),
            count: false,
            get: false,
            offset: 0,
            limit: 0,
            force_sql_filters: false,
        }
    }
}

#[derive(Debug, Clone)]
pub struct CatalogAppMetadata {
    pub app_version: Option<String>,
    pub categories: Option<Vec<String>>,
    pub description: Option<String>,
    pub home: Option<String>,
    pub icon: Option<String>,
    pub keywords: Option<Vec<String>>,
    pub title: Option<String>,
    pub train: Option<String>,
    pub name: Option<String>,
    pub version: Option<String>,
    pub maintainers: Option<Vec<Maintainer>>,
    pub capabilities: Option<Vec<Capability>>,
    pub run_as_context: Option<Vec<RunAsContext>>,
    pub date_added: Option<String>,
    pub changelog_url: Option<String>,
    pub lib_version: Option<String>,
    pub lib_version_hash: Option<String>,
    pub host_mounts: Option<Vec<HostMount>>,
    pub screenshots: Option<Vec<String>>,
    pub sources: Option<Vec<String>>,
}

#[derive(Debug, Clone)]
pub struct SchemaGroup {
    pub name: String,
    pub description: Option<String>,
}

#[derive(Debug, Clone, PartialEq, Eq, Structural)]
pub enum AppInstanceState {
    Crashed,
    Deploying,
    Running,
    Stopped,
    Stopping,
}

/// An installed application as `app.get_instance` describes it.
#[derive(Debug, Clone)]
pub struct AppInstanceResponse {
    pub name: String,
    pub id: i32,
    pub state: AppInstanceState,
    pub upgrade_available: bool,
    pub latest_version: Option<String>,
    pub image_updates_available: bool,
    pub custom_app: bool,
    pub migrated: bool,
    pub human_version: String,
    pub version: String,
    pub metadata: HashMap<String, Option<serde_json::Value>>,
    pub active_workloads: Option<ActiveWorkloads>,
    pub notes: Option<String>,
    pub portals: HashMap<String, String>,
    pub version_details: Option<HashMap<String, serde_json::Value>>,
    pub config: Option<HashMap<String, serde_json::Value>>,
}

/// An installed application as `app.query` lists it.
#[derive(Debug, Clone)]
pub struct AppQueryResponse {
    pub name: String,
    pub id: String,
    pub state: String,
    pub upgrade_available: bool,
    pub latest_version: Option<String>,
    pub image_updates_available: bool,
    pub custom_app: bool,
    pub migrated: bool,
    pub human_version: Option<String>,
    pub version: Option<String>,
    pub metadata: Option<Metadata>,
    pub active_workloads: Option<ActiveWorkloads>,
    pub notes: Option<String>,
    pub portals: Option<HashMap<String, String>>,
    pub migrated_from_kubernetes: bool,
    pub version_info: Option<VersionInfo>,
    pub config: Option<HashMap<String, serde_json::Value>>,
}

/// A catalog application similar to a given one.
#[derive(Debug, Clone)]
pub struct AppSimilarResponse {
    pub app_readme: Option<String>,
    pub categories: Option<Vec<String>>,
    pub description: Option<String>,
    pub healthy: Option<bool>,
    pub healthy_error: Option<String>,
    pub home: Option<String>,
    pub location: Option<String>,
    pub latest_version: Option<String>,
    pub latest_app_version: Option<String>,
    pub human_version: Option<String>,
    pub last_update: Option<String>,
    pub name: String,
    pub recommended: bool,
    pub title: Option<String>,
    pub maintainers: Option<Vec<Maintainer>>,
    pub tags: Option<Vec<String>>,
    pub screenshots: Option<Vec<String>>,
    pub sources: Option<Vec<String>>,
    pub icon_url: Option<String>,
    pub catalog: Option<String>,
    pub installed: bool,
    pub train: Option<String>,
    pub popularity: Option<i32>,
    pub additional_properties: HashMap<String, serde_json::Value>,
}

/// A catalog application with its versions.
#[derive(Debug)]
pub struct CatalogAppDetails {
    pub app_readme: Option<String>,
    pub categories: Option<Vec<String>>,
    pub description: Option<String>,
    pub healthy: Option<bool>,
    pub healthy_error: Option<String>,
    pub home: Option<String>,
    pub location: Option<String>,
    pub latest_version: Option<String>,
    pub latest_app_version: Option<String>,
    pub latest_human_version: Option<String>,
    pub last_update: Option<TruenasDate>,
    pub name: String,
    pub recommended: bool,
    pub title: Option<String>,
    pub maintainers: Option<Vec<Maintainer>>,
    pub tags: Option<Vec<String>>,
    pub screenshots: Option<Vec<String>>,
    pub sources: Option<Vec<String>>,
    pub icon_url: Option<String>,
    pub capabilities: Option<Vec<Capability>>,
    pub run_as_context: Option<Vec<RunAsContext>>,
    pub versions: Option<HashMap<String, CatalogAppVersion>>,
}

/// One version of a catalog application.
#[derive(Debug)]
pub struct CatalogAppVersion {
    pub healthy: Option<bool>,
    pub supported: Option<bool>,
    pub healthy_error: Option<String>,
    pub location: Option<String>,
    pub last_update: Option<String>,
    pub human_version: Option<String>,
    pub version: Option<String>,
    pub app_metadata: Option<CatalogAppMetadata>,
    pub schema: Option<CatalogAppSchema>,
    pub readme: Option<String>,
    pub changelog: Option<String>,
    pub values: Option<HashMap<String, serde_json::Value>>,
}

/// The form that configures a catalog application.
#[derive(Debug)]
pub struct CatalogAppSchema {
    pub groups: Option<Vec<SchemaGroup>>,
    pub questions: Option<Vec<SchemaQuestion>>,
}

/// The type and limits of one answer in an application's form.
#[derive(Debug)]
pub struct SchemaDefinition {
    pub typ: Option<String>,
    pub default: Option<serde_json::Value>,
    pub required: Option<bool>,
    pub hidden: Option<bool>,
    pub null: Option<bool>,
    pub min: Option<i32>,
    pub max: Option<i32>,
    pub private: Option<bool>,
    pub show_if: Option<Vec<Vec<Option<serde_json::Value>>>>,
    pub ref_: Option<Vec<String>>,
    pub enum_: Option<Vec<SchemaEnum>>,
    pub attrs: Option<Vec<SchemaQuestion>>,
    pub items: Option<Vec<SchemaQuestion>>,
}

/// One allowed answer of an enumerated question.
#[derive(Debug, Clone)]
pub struct SchemaEnum {
    pub value: Option<serde_json::Value>,
    pub description: Option<String>,
}

/// One question of an application's form.
#[derive(Debug)]
pub struct SchemaQuestion {
    pub variable: String,
    pub label: Option<String>,
    pub group: Option<String>,
    pub description: Option<String>,
    pub schema: Option<SchemaDefinition>,
}

/// How to upgrade an application: to which version, with which values.
#[derive(Debug, Clone)]
pub struct UpgradeOptions {
    pub app_version: String,
    pub values: HashMap<String, serde_json::Value>,
    pub snapshot_hostpaths: bool,
}

impl Default for UpgradeOptions {
    /// The latest version, no values, no snapshot of host paths.
    fn default() -> (o: Self)
        ensures
            o.app_version@ == "latest"@,
            o.values@ == Map::<String, serde_json::Value>::empty(),
            !o.snapshot_hostpaths,
    {
        UpgradeOptions { app_version: string_of("latest"), values: HashMap::new(), snapshot_hostpaths: false }
    }
}

/// The new configuration of an application.
#[derive(Debug, Clone)]
pub struct UpdateAppConfigOptions {
    pub values: HashMap<String, serde_json::Value>,
    pub custom_compose_config: HashMap<String, serde_json::Value>,
    pub custom_compose_config_string: String,
}

impl Default for UpdateAppConfigOptions {
    /// No values, no custom compose configuration.
    fn default() -> (o: Self)
        ensures
            o.values@ == Map::<String, serde_json::Value>::empty(),
            o.custom_compose_config@ == Map::<String, serde_json::Value>::empty(),
            o.custom_compose_config_string@ == Seq::<char>::empty(),
    {
        UpdateAppConfigOptions {
            values: HashMap::new(),
            custom_compose_config: HashMap::new(),
            custom_compose_config_string: String::new(),
        }
    }
}

} // verus!
