use vstd::prelude::*;
use std::collections::HashMap;
use crate::text::string_of;

verus! {

#[derive(Debug, Clone)]
pub struct FilesystemMkdirArgs {
    pub path: String,
    pub options: MkdirOptions,
}

/// How to create a directory.
#[derive(Debug, Clone)]
pub struct MkdirOptions {
    pub mode: String,
    pub raise_chmod_errors: bool,
}

/// Directories are made with mode 755 unless asked otherwise.
pub fn default_mode() -> (s: String)
    ensures
        s@ == "755"@,
{
    string_of("755")
}

/// Options that are on unless turned off.
pub fn default_true() -> (b: bool)
    ensures
        b,
{
    true
}

impl Default for MkdirOptions {
    fn default() -> (o: Self)
        ensures
            o.mode@ == "755"@,
            o.raise_chmod_errors,
    {
        MkdirOptions { mode: default_mode(), raise_chmod_errors: default_true() }
    }
}

#[derive(Debug, Clone)]
pub struct FilesystemMkdirResult {
    pub name: String,
    pub path: String,
    pub realpath: String,
    pub typ: String,
    pub size: i32,
    pub allocation_size: i32,
    pub mode: i32,
    pub mount_id: i32,
    pub acl: bool,
    pub uid: i32,
    pub gid: i32,
    pub is_mountpoint: bool,
    pub is_ctldir: bool,
    pub attributes: Vec<String>,
    pub xattrs: Vec<String>,
    pub zfs_attrs: Option<Vec<String>>,
}

#[derive(Debug, Clone)]
pub struct FilesystemStatArgs {
    pub path: String,
}

#[derive(Debug, Clone)]
pub struct FilesystemStatfsArgs {
    pub path: String,
}

#[derive(Debug, Clone)]
pub struct FilesystemStatfsResult {
    pub flags: Vec<String>,
    pub fsid: String,
    pub fstype: String,
    pub source: String,
    pub dest: String,
    pub blocksize: i64,
    pub total_blocks: i64,
    pub free_blocks: i64,
    pub avail_blocks: i64,
    pub total_blocks_str: String,
    pub free_blocks_str: String,
    pub avail_blocks_str: String,
    pub files: i64,
    pub free_files: i64,
    pub name_max: i32,
    pub total_bytes: i64,
    pub free_bytes: i64,
    pub avail_bytes: i64,
    pub total_bytes_str: String,
    pub free_bytes_str: String,
    pub avail_bytes_str: String,
}

#[derive(Debug, Clone)]
pub struct DestroySnapshotsArgs {
    pub name: String,
    pub snapshots: SnapshotOptions,
}

#[derive(Debug, Clone)]
pub struct SnapshotOptions {
    pub all: bool,
    pub recursive: bool,
    pub snapshots: Option<Vec<SnapshotRange>>,
}

#[derive(Debug, Clone)]
pub struct SnapshotRange {
    pub start: Option<String>,
    pub end: Option<String>,
}

/// A dataset with its children, as `pool.dataset.details` lists it.
#[derive(Debug)]
pub struct DatasetDetailsResponse {
    pub id: String,
    pub typ: String,
    pub name: String,
    pub pool: String,
    pub encrypted: bool,
    pub encryption_root: Option<String>,
    pub key_loaded: bool,
    pub children: Vec<DatasetDetailsResponse>,
    pub snapshot_count: i32,
    pub deduplication: ZfsSettingProperty,
    pub mountpoint: Option<String>,
    pub sync: ZfsSettingProperty,
    pub compression: ZfsSettingProperty,
    pub compressratio: ZfsSettingProperty,
    pub origin: ZfsSettingProperty,
    pub quota: ZfsSizeProperty,
    pub refquota: ZfsSizeProperty,
    pub reservation: ZfsSizeProperty,
    pub refreservation: ZfsSizeProperty,
    pub key_format: ZfsSettingProperty,
    pub encryption_algorithm: ZfsSettingProperty,
    pub used: ZfsSizeProperty,
    pub usedbychildren: ZfsSizeProperty,
    pub usedbydataset: ZfsSizeProperty,
    pub usedbysnapshots: ZfsSizeProperty,
    pub available: ZfsSizeProperty,
    pub user_properties: HashMap<String, String>,
    pub locked: bool,
    pub atime: bool,
    pub casesensitive: bool,
    pub readonly: bool,
    pub thick_provisioned: bool,
    pub nfs_shares: Vec<String>,
    pub smb_shares: Vec<String>,
    pub iscsi_shares: Vec<String>,
    pub vms: Vec<String>,
    pub apps: Vec<String>,
    pub virt_instances: Vec<String>,
    pub replication_tasks_count: i32,
    pub snapshot_tasks_count: i32,
    pub cloudsync_tasks_count: i32,
    pub rsync_tasks_count: i32,
}

#[derive(Debug, Clone)]
pub struct ZfsSettingProperty {
    pub parsed: Option<String>,
    pub rawvalue: String,
    pub value: Option<String>,
    pub source: String,
    pub source_info: Option<String>,
}

#[derive(Debug, Clone)]
pub struct ZfsSizeProperty {
    pub parsed: Option<i64>,
    pub rawvalue: String,
    pub value: Option<String>,
    pub source: String,
    pub source_info: Option<String>,
}

#[derive(Debug, Clone)]
pub struct DatasetFetchSnapshotCountArgs {
    pub name: String,
}

#[derive(Debug, Clone)]
pub struct ZfsCreationProperty {
    pub parsed: MongoDate,
    pub rawvalue: String,
    pub value: Option<String>,
    pub source: String,
    pub source_info: Option<String>,
}

/// A time as the server writes it: milliseconds since the epoch.
#[derive(Debug, Clone)]
pub struct MongoDate {
    pub date: i64,
}

/// A cron-like schedule.
#[derive(Debug, Clone)]
pub struct DeletionSchedule {
    pub minute: String,
    pub hour: String,
    pub dom: String,
    pub month: String,
    pub dow: String,
}

/// A scheduled scrub of a pool.
#[derive(Debug, Clone)]
pub struct PoolScrubQueryResponse {
    pub pool: i64,
    pub threshold: i32,
    pub description: String,
    pub schedule: DeletionSchedule,
    pub enabled: bool,
    pub id: i64,
    pub pool_name: String,
}

#[derive(Debug, Clone)]
pub struct PoolScrubQuerySingleArgs {
    pub id: i64,
}

/// A request to scrub a pool now.
#[derive(Debug, Clone)]
pub struct RunPoolScrubArgs {
    pub name: String,
    pub threshold: i32,
}

/// A pool is scrubbed when 35 days have passed, unless asked otherwise.
pub fn default_threshold() -> (t: i32)
    ensures
        t == 35,
{
    35
}

#[derive(Debug, Clone)]
pub struct TakeActionOnPoolScrubArgs {
    pub name: String,
    pub action: PoolScrubAction,
}

#[derive(Debug, Clone, PartialEq, Eq, Structural)]
pub enum PoolScrubAction {
    Start,
    Stop,
    Pause,
}

#[derive(Debug, Clone)]
pub struct UpdatePoolScrubArgs {
    pub id_: i32,
    pub data: UpdatePoolScrubDetails,
}

/// The settings of a scrub task, as created or updated.
#[derive(Debug, Clone)]
pub struct UpdatePoolScrubDetails {
    pub pool: i64,
    pub threshold: i32,
    pub description: String,
    pub schedule: DeletionSchedule,
    pub enabled: bool,
}

#[derive(Debug, Clone)]
pub struct DeletePoolScrubArgs {
    pub id: i32,
}

/// A request to create a periodic snapshot task.
#[derive(Debug, Clone)]
pub struct SnapshotTaskCreateArgs {
    pub dataset: String,
    pub recursive: bool,
    pub lifetime_value: i32,
    pub lifetime_unit: LifetimeUnits,
    pub enabled: bool,
    pub exclude: Vec<String>,
    pub naming_schema: String,
    pub allow_empty: bool,
    pub schedule: SnapshotSchedule,
}

/// Snapshots are kept 2 units unless asked otherwise.
pub fn default_lifetime_value() -> (v: i32)
    ensures
        v == 2,
{
    2
}

/// The naming schema of snapshots unless another is given.
pub fn default_naming_schema() -> (s: String)
    ensures
        s@ == "auto-%Y-%m-%d_%H-%M"@,
{
    string_of("auto-%Y-%m-%d_%H-%M")
}

#[derive(Debug, Clone, PartialEq, Eq, Structural)]
pub enum LifetimeUnits {
    Hour,
    Day,
    Week,
    Month,
    Year,
}

impl Default for LifetimeUnits {
    fn default() -> (u: Self)
        ensures
            u == LifetimeUnits::Week,
    {
        LifetimeUnits::Week
    }
}

/// When a periodic snapshot task runs.
#[derive(Debug, Clone)]
pub struct SnapshotSchedule {
    pub minute: String,
    pub hour: String,
    pub dom: String,
    pub month: String,
    pub dow: String,
    pub begin: String,
    pub end: String,
}

pub fn default_minute() -> (s: String)
    ensures
        s@ == "00"@,
{
    string_of("00")
}

pub fn default_hour() -> (s: String)
    ensures
        s@ == "*"@,
{
    string_of("*")
}

pub fn default_dom() -> (s: String)
    ensures
        s@ == "*"@,
{
    string_of("*")
}

pub fn default_month() -> (s: String)
    ensures
        s@ == "*"@,
{
    string_of("*")
}

pub fn default_dow() -> (s: String)
    ensures
        s@ == "*"@,
{
    string_of("*")
}

pub fn default_begin() -> (s: String)
    ensures
        s@ == "00:00"@,
{
    string_of("00:00")
}

pub fn default_end() -> (s: String)
    ensures
        s@ == "23:59"@,
{
    string_of("23:59")
}

impl Default for SnapshotSchedule {
    /// Every hour on the hour, all day.
    fn default() -> (s: Self)
        ensures
            s.minute@ == "00"@,
            s.hour@ == "*"@,
            s.dom@ == "*"@,
            s.month@ == "*"@,
            s.dow@ == "*"@,
            s.begin@ == "00:00"@,
            s.end@ == "23:59"@,
    {
        SnapshotSchedule {
            minute: default_minute(),
            hour: default_hour(),
            dom: default_dom(),
            month: default_month(),
            dow: default_dow(),
            begin: default_begin(),
            end: default_end(),
        }
    }
}

#[derive(Debug, Clone)]
pub struct DeleteSnapshotTaskArgs {
    pub id: i32,
    pub options: DeleteSnapshotTaskOptions,
}

#[derive(Debug, Clone)]
pub struct DeleteSnapshotTaskOptions {
    pub fixate_removal_date: bool,
}

impl Default for DeleteSnapshotTaskOptions {
    fn default() -> (o: Self)
        ensures
            !o.fixate_removal_date,
    {
        DeleteSnapshotTaskOptions { fixate_removal_date: false }
    }
}

#[derive(Debug, Clone)]
pub struct DeleteWillChangeRetentionForArgs {
    pub id: i32,
}

#[derive(Debug, Clone)]
pub struct GetSnapshotTaskInstanceArgs {
    pub id: i32,
}

#[derive(Debug, Clone)]
pub struct ExecuteSnapshotTaskArgs {
    pub id: i32,
}

#[derive(Debug, Clone)]
pub struct UpdateSnapshotTaskArgs {
    pub id: i32,
    pub data: UpdateSnapshotTaskDetails,
}

#[derive(Debug, Clone)]
pub struct UpdateSnapshotTaskDetails {
    pub dataset: String,
    pub recursive: bool,
    pub lifetime_value: i32,
    pub lifetime_unit: LifetimeUnits,
    pub enabled: bool,
    pub exclude: Vec<String>,
    pub naming_schema: String,
    pub allow_empty: bool,
    pub schedule: SnapshotSchedule,
}

#[derive(Debug, Clone)]
pub struct UpdateWillChangeRetentionForArgs {
    pub id: i32,
    pub data: UpdateSnapshotTaskDetails,
}

#[derive(Debug, Clone, PartialEq, Eq, Structural)]
pub enum DatasetType {
    Filesystem,
    Volume,
}

#[derive(Debug, Clone, PartialEq, Eq, Structural)]
pub enum AclType {
    Nfsv4,
    Posix,
    Off,
}

#[derive(Debug, Clone, PartialEq, Eq, Structural)]
pub enum AclMode {
    Passthrough,
    Discard,
    Restricted,
}

#[derive(Debug, Clone, PartialEq, Eq, Structural)]
pub enum CaseSensitivity {
    Sensitive,
    Insensitive,
    Mixed,
}

#[derive(Debug, Clone, PartialEq, Eq, Structural)]
pub enum Atime {
    On,
    Off,
}

/// What `pool.dataset.create` is sent.
#[derive(Debug, Clone)]
pub struct DatasetCreatePayload {
    pub name: String,
    pub typ: DatasetType,
    pub acltype: AclType,
    pub aclmode: AclMode,
    pub casesensitivity: Option<CaseSensitivity>,
    pub atime: Option<Atime>,
    pub comments: Option<String>,
    pub volume_size: Option<i64>,
}

/// The kinds of dataset the client creates.
#[derive(Debug, Clone, PartialEq, Eq, Structural)]
pub enum DatasetOptions {
    Share,
    Generic,
}

/// The settings of the kinds of dataset the client creates.
pub struct Presets;

impl Presets {
    /// A file system dataset for sharing: NFSv4 ACLs passed through.
    pub fn share_dataset() -> (p: DatasetCreatePayload)
        ensures
            p.name@ == Seq::<char>::empty(),
            p.typ == DatasetType::Filesystem,
            p.acltype == AclType::Nfsv4,
            p.aclmode == AclMode::Passthrough,
            p.casesensitivity is None,
            p.atime is None,
            p.comments is None,
            p.volume_size is None,
    {
        DatasetCreatePayload {
            name: String::new(),
            typ: DatasetType::Filesystem,
            acltype: AclType::Nfsv4,
            aclmode: AclMode::Passthrough,
            casesensitivity: None,
            atime: None,
            comments: None,
            volume_size: None,
        }
    }

    /// A generic file system dataset: POSIX ACLs, ACL changes discarded.
    pub fn generic_dataset() -> (p: DatasetCreatePayload)
        ensures
            p.name@ == Seq::<char>::empty(),
            p.typ == DatasetType::Filesystem,
            p.acltype == AclType::Posix,
            p.aclmode == AclMode::Discard,
            p.casesensitivity is None,
            p.atime is None,
            p.comments is None,
            p.volume_size is None,
    {
        DatasetCreatePayload {
            name: String::new(),
            typ: DatasetType::Filesystem,
            acltype: AclType::Posix,
            aclmode: AclMode::Discard,
            casesensitivity: None,
            atime: None,
            comments: None,
            volume_size: None,
        }
    }

    /// What creating a dataset named `name` of the given kind sends: the
    /// preset of that kind with the name filled in.
    pub fn dataset_create_payload(name: &str, kind: DatasetOptions) -> (p: DatasetCreatePayload)
        ensures
            p.name@ == name@,
            p.typ == DatasetType::Filesystem,
            p.acltype == (if kind == DatasetOptions::Share { AclType::Nfsv4 } else { AclType::Posix }),
            p.aclmode == (if kind == DatasetOptions::Share { AclMode::Passthrough } else { AclMode::Discard }),
            p.casesensitivity is None,
            p.atime is None,
            p.comments is None,
            p.volume_size is None,
    {
        let mut preset = match kind {
            DatasetOptions::Share => Presets::share_dataset(),
            DatasetOptions::Generic => Presets::generic_dataset(),
        };
        preset.name = string_of(name);
        preset
    }
}

#[derive(Debug, Clone)]
pub struct ZfsProperty {
    pub value: Option<String>,
    pub rawvalue: Option<String>,
    pub source: String,
}

/// The dataset `pool.dataset.create` made.
#[derive(Debug, Clone)]
pub struct DatasetCreationResponse {
    pub id: String,
    pub name: String,
    pub pool: String,
    pub typ: String,
    pub encrypted: bool,
    pub mountpoint: String,
    pub aclmode: ZfsProperty,
    pub acltype: ZfsProperty,
    pub casesensitivity: ZfsProperty,
    pub atime: ZfsProperty,
    pub compression: ZfsProperty,
    pub checksum: ZfsProperty,
    pub deduplication: ZfsProperty,
    pub used: ZfsProperty,
    pub available: ZfsProperty,
    pub quota: ZfsProperty,
    pub creation: CreationProperty,
}

#[derive(Debug, Clone)]
pub struct CreationProperty {
    pub parsed: MongoDate,
    pub rawvalue: String,
    pub value: String,
}

#[derive(Debug, Clone)]
pub struct DatasetDeleteOptions {
    pub id: String,
}

/// The filters and options of a `pool.scrub.query` call.
#[derive(Debug, Clone)]
pub struct PoolScrubQueryArgs {
    pub filters: Vec<HashMap<String, String>>,
    pub options: PoolScrubQueryOptions,
}

/// The query options of the middleware.
#[derive(Debug, Clone)]
pub struct PoolScrubQueryOptions {
    pub relationships: bool,
    pub count: bool,
    pub get: bool,
    pub force_sql_filters: bool,
    pub extend: Option<Vec<String>>,
    pub extend_context: Option<String>,
    pub prefix: Option<String>,
    pub extra: HashMap<String, serde_json::Value>,
    pub order_by: Vec<String>,
    pub select: Vec<String>,
    pub offset: i32,
    pub limit: i32,
}

impl Default for PoolScrubQueryOptions {
    /// Relationships on, everything else off, empty or zero.
    fn default() -> (o: Self)
        ensures
            o.relationships,
            !o.count,
            !o.get,
            !o.force_sql_filters,
            o.extend is None,
            o.extend_context is None,
            o.prefix is None,
            o.extra@ == Map::<String, serde_json::Value>::empty(),
            o.order_by@.len() == 0,
            o.select@.len() == 0,
            o.offset == 0,
            o.limit == 0,
    {
        PoolScrubQueryOptions {
            relationships: true,
            count: false,
            get: false,
            force_sql_filters: false,
            extend: None,
            extend_context: None,
            prefix: None,
            extra: HashMap::new(),
            order_by: Vec::new(),
            select: Vec::new(),
            offset: 0,
            limit: 0,
        }
    }
}

/// A periodic snapshot task as the middleware describes it.
#[derive(Debug, Clone)]
pub struct SnapshotCreationResponse {
    pub dataset: String,
    pub recursive: bool,
    pub lifetime_value: i32,
    pub lifetime_unit: LifetimeUnits,
    pub enabled: bool,
    pub exclude: Vec<String>,
    pub naming_schema: String,
    pub allow_empty: bool,
    pub schedule: SnapshotSchedule,
    pub id: i32,
    pub vmware_sync: bool,
    pub state: HashMap<Option<serde_json::Value>, Option<serde_json::Value>>,
}

/// A ZFS property with its parsed value, whatever its type.
#[derive(Debug, Clone)]
pub struct ZfsGenericProperty {
    pub parsed: Option<serde_json::Value>,
    pub rawvalue: String,
    pub value: Option<String>,
    pub source: String,
    pub source_info: Option<String>,
}

/// A dataset with its properties and its child datasets.
#[derive(Debug)]
pub struct ZfsDataset {
    pub id: String,
    pub typ: String,
    pub name: String,
    pub pool: String,
    pub encrypted: bool,
    pub encryption_root: Option<String>,
    pub key_loaded: bool,
    pub children: Vec<ZfsDataset>,
    pub comments: Option<ZfsGenericProperty>,
    pub deduplication: ZfsGenericProperty,
    pub mountpoint: String,
    pub aclmode: ZfsGenericProperty,
    pub acltype: ZfsGenericProperty,
    pub xattr: ZfsGenericProperty,
    pub atime: ZfsGenericProperty,
    pub casesensitivity: ZfsGenericProperty,
    pub checksum: ZfsGenericProperty,
    /// The `exec` property (the name is a word of Verus).
    pub exec_: ZfsGenericProperty,
    pub sync: ZfsGenericProperty,
    pub compression: ZfsGenericProperty,
    pub compressratio: ZfsGenericProperty,
    pub origin: ZfsGenericProperty,
    pub quota: ZfsGenericProperty,
    pub refquota: ZfsGenericProperty,
    pub reservation: ZfsGenericProperty,
    pub refreservation: ZfsGenericProperty,
    pub copies: ZfsGenericProperty,
    pub snapdir: ZfsGenericProperty,
    pub readonly: ZfsGenericProperty,
    pub recordsize: ZfsGenericProperty,
    pub key_format: ZfsGenericProperty,
    pub encryption_algorithm: ZfsGenericProperty,
    pub used: ZfsGenericProperty,
    pub usedbychildren: ZfsGenericProperty,
    pub usedbydataset: ZfsGenericProperty,
    pub usedbyrefreservation: ZfsGenericProperty,
    pub usedbysnapshots: ZfsGenericProperty,
    pub available: ZfsGenericProperty,
    pub special_small_block_size: ZfsGenericProperty,
    pub pbkdf2iters: ZfsGenericProperty,
    pub creation: ZfsCreationProperty,
    pub snapdev: ZfsGenericProperty,
    pub user_properties: HashMap<String, serde_json::Value>,
    pub locked: bool,
}

} // verus!
