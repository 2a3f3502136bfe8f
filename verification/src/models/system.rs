use vstd::prelude::*;
use std::collections::HashMap;
use crate::text::string_of;

verus! {

/// Who started a job.
#[derive(Debug, Clone)]
pub struct JobCredentials {
    pub credential_type: Option<String>,
    pub data: Option<JobCredentialsData>,
}

#[derive(Debug, Clone)]
pub struct JobCredentialsData {
    pub username: Option<String>,
    pub login_at: Option<HashMap<String, i64>>,
}

/// A reporting graph the server offers.
#[derive(Debug, Clone)]
pub struct GraphResult {
    pub name: String,
    pub title: String,
    pub vertical_label: String,
    pub identifiers: Option<Vec<String>>,
}

/// The range and resolution asked of reporting data.
#[derive(Debug, Clone)]
pub struct ReportingGraphQuery {
    pub unit: Option<ReportingUnit>,
    pub page: Option<i32>,
    pub aggregate: Option<bool>,
    pub start: Option<i64>,
    pub end: Option<i64>,
}

impl Default for ReportingGraphQuery {
    fn default() -> (q: Self)
        ensures
            q.unit is None,
            q.page is None,
            q.aggregate is None,
            q.start is None,
            q.end is None,
    {
        ReportingGraphQuery { unit: None, page: None, aggregate: None, start: None, end: None }
    }
}

/// One graph asked of the reporting data.
#[derive(Debug, Clone)]
pub struct ReportingGraphRequest {
    pub name: String,
    pub identifier: Option<String>,
}

impl ReportingGraphRequest {
    /// A request for the graph `name`, for one identifier or all.
    pub fn new(name: ReportingGraphName, identifier: Option<String>) -> (r: Self)
        ensures
            r.name@ == graph_name_text(name),
            r.identifier == identifier,
    {
        ReportingGraphRequest { name: string_of(name.value()), identifier }
    }
}

#[derive(Debug, Clone)]
pub enum ReportingUnit {
    Hour,
    Day,
    Week,
    Month,
    Year,
}

/// The reporting graphs the client asks for.
#[derive(Debug, Clone)]
pub enum ReportingGraphName {
    Cpu,
    CpuTemp,
    Disk,
    Interface,
    Load,
    Processes,
    Memory,
    Uptime,
    ArcActualRate,
    ArcRate,
    ArcSize,
    ArcResult,
    DiskTemp,
    UpsCharge,
    UpsRuntime,
    UpsVoltage,
    UpsCurrent,
    UpsFrequency,
    UpsLoad,
    UpsTemperature,
}

/// The name the server knows a graph by.
pub open spec fn graph_name_text(n: ReportingGraphName) -> Seq<char> {
    match n {
        ReportingGraphName::Cpu => seq!['c', 'p', 'u'],
        ReportingGraphName::CpuTemp => seq!['c', 'p', 'u', 't', 'e', 'm', 'p'],
        ReportingGraphName::Disk => seq!['d', 'i', 's', 'k'],
        ReportingGraphName::Interface => seq!['i', 'n', 't', 'e', 'r', 'f', 'a', 'c', 'e'],
        ReportingGraphName::Load => seq!['l', 'o', 'a', 'd'],
        ReportingGraphName::Processes => seq!['p', 'r', 'o', 'c', 'e', 's', 's', 'e', 's'],
        ReportingGraphName::Memory => seq!['m', 'e', 'm', 'o', 'r', 'y'],
        ReportingGraphName::Uptime => seq!['u', 'p', 't', 'i', 'm', 'e'],
        ReportingGraphName::ArcActualRate => seq!['a', 'r', 'c', 'a', 'c', 't', 'u', 'a', 'l', 'r', 'a', 't', 'e'],
        ReportingGraphName::ArcRate => seq!['a', 'r', 'c', 'r', 'a', 't', 'e'],
        ReportingGraphName::ArcSize => seq!['a', 'r', 'c', 's', 'i', 'z', 'e'],
        ReportingGraphName::ArcResult => seq!['a', 'r', 'c', 'r', 'e', 's', 'u', 'l', 't'],
        ReportingGraphName::DiskTemp => seq!['d', 'i', 's', 'k', 't', 'e', 'm', 'p'],
        ReportingGraphName::UpsCharge => seq!['u', 'p', 's', 'c', 'h', 'a', 'r', 'g', 'e'],
        ReportingGraphName::UpsRuntime => seq!['u', 'p', 's', 'r', 'u', 'n', 't', 'i', 'm', 'e'],
        ReportingGraphName::UpsVoltage => seq!['u', 'p', 's', 'v', 'o', 'l', 't', 'a', 'g', 'e'],
        ReportingGraphName::UpsCurrent => seq!['u', 'p', 's', 'c', 'u', 'r', 'r', 'e', 'n', 't'],
        ReportingGraphName::UpsFrequency => seq!['u', 'p', 's', 'f', 'r', 'e', 'q', 'u', 'e', 'n', 'c', 'y'],
        ReportingGraphName::UpsLoad => seq!['u', 'p', 's', 'l', 'o', 'a', 'd'],
        ReportingGraphName::UpsTemperature => seq!['u', 'p', 's', 't', 'e', 'm', 'p', 'e', 'r', 'a', 't', 'u', 'r', 'e'],
    }
}

/// Each graph is asked for by the name the middleware's reporting knows it by.
pub proof fn law_graph_names_are_the_reporting_names()
    ensures
        graph_name_text(ReportingGraphName::Cpu) == "cpu"@,
        graph_name_text(ReportingGraphName::CpuTemp) == "cputemp"@,
        graph_name_text(ReportingGraphName::Disk) == "disk"@,
        graph_name_text(ReportingGraphName::Interface) == "interface"@,
        graph_name_text(ReportingGraphName::Load) == "load"@,
        graph_name_text(ReportingGraphName::Processes) == "processes"@,
        graph_name_text(ReportingGraphName::Memory) == "memory"@,
        graph_name_text(ReportingGraphName::Uptime) == "uptime"@,
        graph_name_text(ReportingGraphName::ArcActualRate) == "arcactualrate"@,
        graph_name_text(ReportingGraphName::ArcRate) == "arcrate"@,
        graph_name_text(ReportingGraphName::ArcSize) == "arcsize"@,
        graph_name_text(ReportingGraphName::ArcResult) == "arcresult"@,
        graph_name_text(ReportingGraphName::DiskTemp) == "disktemp"@,
        graph_name_text(ReportingGraphName::UpsCharge) == "upscharge"@,
        graph_name_text(ReportingGraphName::UpsRuntime) == "upsruntime"@,
        graph_name_text(ReportingGraphName::UpsVoltage) == "upsvoltage"@,
        graph_name_text(ReportingGraphName::UpsCurrent) == "upscurrent"@,
        graph_name_text(ReportingGraphName::UpsFrequency) == "upsfrequency"@,
        graph_name_text(ReportingGraphName::UpsLoad) == "upsload"@,
        graph_name_text(ReportingGraphName::UpsTemperature) == "upstemperature"@,
{
    reveal_strlit("cpu");
    reveal_strlit("cputemp");
    reveal_strlit("disk");
    reveal_strlit("interface");
    reveal_strlit("load");
    reveal_strlit("processes");
    reveal_strlit("memory");
    reveal_strlit("uptime");
    reveal_strlit("arcactualrate");
    reveal_strlit("arcrate");
    reveal_strlit("arcsize");
    reveal_strlit("arcresult");
    reveal_strlit("disktemp");
    reveal_strlit("upscharge");
    reveal_strlit("upsruntime");
    reveal_strlit("upsvoltage");
    reveal_strlit("upscurrent");
    reveal_strlit("upsfrequency");
    reveal_strlit("upsload");
    reveal_strlit("upstemperature");
}

/// Whether a text is a non-empty word of lowercase ASCII letters.
pub open spec fn is_lowercase_word(s: Seq<char>) -> bool {
    &&& s.len() > 0
    &&& forall|i: int| 0 <= i < s.len() ==> 'a' <= #[trigger] s[i] <= 'z'
}

/// Every graph's name is a non-empty word of lowercase ASCII letters, and
/// different graphs have different names.
pub proof fn law_graph_names_distinct_words(a: ReportingGraphName, b: ReportingGraphName)
    ensures
        is_lowercase_word(graph_name_text(a)),
        graph_name_text(a) == graph_name_text(b) ==> a == b,
{
    let ta = graph_name_text(a);
    let tb = graph_name_text(b);
    assert forall|i: int| 0 <= i < ta.len() implies 'a' <= #[trigger] ta[i] <= 'z' by {
        match a {
            ReportingGraphName::Cpu => {},
            _ => {},
        }
    }
    if ta == tb {
        assert(ta.len() == tb.len());
        assert(ta[0] == tb[0]);
        if ta.len() > 3 {
            assert(ta[3] == tb[3]);
        }
    }
}

impl ReportingGraphName {
    /// The name the server knows the graph by.
    pub fn value(&self) -> (s: &'static str)
        ensures
            s@ == graph_name_text(*self),
    {
        match self {
            ReportingGraphName::Cpu => {
                proof { reveal_strlit("cpu"); }
                "cpu"
            },
            ReportingGraphName::CpuTemp => {
                proof { reveal_strlit("cputemp"); }
                "cputemp"
            },
            ReportingGraphName::Disk => {
                proof { reveal_strlit("disk"); }
                "disk"
            },
            ReportingGraphName::Interface => {
                proof { reveal_strlit("interface"); }
                "interface"
            },
            ReportingGraphName::Load => {
                proof { reveal_strlit("load"); }
                "load"
            },
            ReportingGraphName::Processes => {
                proof { reveal_strlit("processes"); }
                "processes"
            },
            ReportingGraphName::Memory => {
                proof { reveal_strlit("memory"); }
                "memory"
            },
            ReportingGraphName::Uptime => {
                proof { reveal_strlit("uptime"); }
                "uptime"
            },
            ReportingGraphName::ArcActualRate => {
                proof { reveal_strlit("arcactualrate"); }
                "arcactualrate"
            },
            ReportingGraphName::ArcRate => {
                proof { reveal_strlit("arcrate"); }
                "arcrate"
            },
            ReportingGraphName::ArcSize => {
                proof { reveal_strlit("arcsize"); }
                "arcsize"
            },
            ReportingGraphName::ArcResult => {
                proof { reveal_strlit("arcresult"); }
                "arcresult"
            },
            ReportingGraphName::DiskTemp => {
                proof { reveal_strlit("disktemp"); }
                "disktemp"
            },
            ReportingGraphName::UpsCharge => {
                proof { reveal_strlit("upscharge"); }
                "upscharge"
            },
            ReportingGraphName::UpsRuntime => {
                proof { reveal_strlit("upsruntime"); }
                "upsruntime"
            },
            ReportingGraphName::UpsVoltage => {
                proof { reveal_strlit("upsvoltage"); }
                "upsvoltage"
            },
            ReportingGraphName::UpsCurrent => {
                proof { reveal_strlit("upscurrent"); }
                "upscurrent"
            },
            ReportingGraphName::UpsFrequency => {
                proof { reveal_strlit("upsfrequency"); }
                "upsfrequency"
            },
            ReportingGraphName::UpsLoad => {
                proof { reveal_strlit("upsload"); }
                "upsload"
            },
            ReportingGraphName::UpsTemperature => {
                proof { reveal_strlit("upstemperature"); }
                "upstemperature"
            },
        }
    }
}

/// A disk as `disk.query` describes it.
#[derive(Debug, Clone)]
pub struct DiskDetails {
    pub identifier: String,
    pub name: String,
    pub subsystem: String,
    pub number: i32,
    pub serial: String,
    pub lunid: Option<String>,
    pub size: i64,
    pub description: String,
    pub transfermode: String,
    pub hddstandby: String,
    pub advpowermgmt: String,
    pub togglesmart: Option<bool>,
    pub smartoptions: Option<String>,
    pub expiretime: Option<String>,
    pub critical: Option<String>,
    pub difference: Option<String>,
    pub informational: Option<String>,
    pub model: Option<String>,
    pub rotationrate: Option<i32>,
    pub disk_type: String,
    pub zfs_guid: Option<String>,
    pub bus: String,
    pub devname: String,
    pub enclosure: Option<String>,
    pub supports_smart: Option<bool>,
    pub pool: Option<String>,
}

/// The devices of a pool, by role.
#[derive(Debug)]
pub struct PoolTopology {
    pub data: Vec<PoolDevice>,
    pub log: Vec<PoolDevice>,
    pub cache: Vec<PoolDevice>,
    pub spare: Vec<PoolDevice>,
    pub special: Vec<PoolDevice>,
    pub dedup: Vec<PoolDevice>,
}

/// A device of a pool, with the devices below it.
#[derive(Debug)]
pub struct PoolDevice {
    pub name: String,
    pub device_type: String,
    pub path: String,
    pub guid: String,
    pub status: String,
    pub stats: Option<PoolStats>,
    pub children: Vec<PoolDevice>,
    pub device: Option<String>,
    pub disk: Option<String>,
    pub unavail_disk: Option<String>,
}

#[derive(Debug, Clone)]
pub struct PoolStats {
    pub timestamp: i64,
    pub read_errors: i32,
    pub write_errors: i32,
    pub checksum_errors: i32,
    pub ops: Vec<i64>,
    pub bytes: Vec<i64>,
    pub size: i64,
    pub allocated: i64,
    pub fragmentation: i32,
    pub self_healed: i32,
    pub configured_ashift: i32,
    pub logical_ashift: i32,
    pub physical_ashift: i32,
}

#[derive(Debug, Clone)]
pub struct AutoTrim {
    pub value: String,
    pub rawvalue: String,
    pub parsed: String,
    pub source: String,
}

/// A time as the server writes it: milliseconds since the epoch.
#[derive(Debug, Clone)]
pub struct MongoDate {
    pub date: i64,
}

#[derive(Debug, Clone)]
pub struct AlertCategoriesResponse {
    pub id: String,
    pub title: String,
    pub classes: Vec<AlertCategoriesClasses>,
}

#[derive(Debug, Clone)]
pub struct AlertCategoriesClasses {
    pub id: String,
    pub title: String,
    pub level: String,
    pub proactive_support: bool,
}

/// How far a job has come.
#[derive(Debug, Clone)]
pub struct JobProgress {
    pub percent: i32,
    pub description: Option<String>,
    pub extra: Option<serde_json::Value>,
}

/// An alert raised by the server.
#[derive(Debug, Clone)]
pub struct AlertResponse {
    pub uuid: String,
    pub source: String,
    pub klass: String,
    pub args: Option<serde_json::Value>,
    pub node: String,
    pub key: String,
    pub datetime: MongoDate,
    pub last_occurrence: MongoDate,
    pub dismissed: bool,
    pub mail: Option<serde_json::Value>,
    pub text: String,
    pub id: String,
    pub level: String,
    pub formatted: Option<String>,
    pub one_shot: bool,
}

} // verus!
