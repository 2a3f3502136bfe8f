use vstd::prelude::*;

verus! {

#[derive(Debug, Clone, PartialEq, Eq, Structural)]
pub enum CpuMode {
    Custom,
    HostModel,
    HostPassthrough,
}

/// The run state of a virtual machine.
#[derive(Debug, Clone)]
pub struct VmStatus {
    pub state: String,
    pub pid: Option<i32>,
    pub domain_state: String,
}

#[derive(Debug, Clone)]
pub struct VmDisplayUriQueryResponse {
    pub uri: Option<String>,
    pub error: Option<String>,
}

/// How to stop a virtual machine.
#[derive(Debug, Clone)]
pub struct StopOptions {
    pub force: bool,
    pub force_after_timeout: bool,
}

impl Default for StopOptions {
    fn default() -> (o: Self)
        ensures
            !o.force,
            !o.force_after_timeout,
    {
        StopOptions { force: false, force_after_timeout: false }
    }
}

/// How to start a virtual machine.
#[derive(Debug, Clone)]
pub struct StartOptions {
    pub overcommit: bool,
}

impl Default for StartOptions {
    fn default() -> (o: Self)
        ensures
            !o.overcommit,
    {
        StartOptions { overcommit: false }
    }
}

/// How to delete a virtual machine.
#[derive(Debug, Clone)]
pub struct DeleteOptions {
    pub zvols: bool,
    pub force: bool,
}

impl Default for DeleteOptions {
    fn default() -> (o: Self)
        ensures
            !o.zvols,
            !o.force,
    {
        DeleteOptions { zvols: false, force: false }
    }
}

impl StopOptions {
    /// The options of a stop request: flags not given are off.
    pub fn from_flags(force: Option<bool>, force_after_timeout: Option<bool>) -> (o: Self)
        ensures
            o.force == (force == Some(true)),
            o.force_after_timeout == (force_after_timeout == Some(true)),
    {
        StopOptions { force: force.unwrap_or(false), force_after_timeout: force_after_timeout.unwrap_or(false) }
    }
}

impl DeleteOptions {
    /// The options of a delete request: flags not given are off.
    pub fn from_flags(delete_zvols: Option<bool>, force: Option<bool>) -> (o: Self)
        ensures
            o.zvols == (delete_zvols == Some(true)),
            o.force == (force == Some(true)),
    {
        DeleteOptions { zvols: delete_zvols.unwrap_or(false), force: force.unwrap_or(false) }
    }
}

/// A device attached to a virtual machine.
#[derive(Debug, Clone)]
pub struct VmDevice {
    pub id: i32,
    pub attributes: std::collections::HashMap<String, serde_json::Value>,
    pub vm: i32,
    pub order: i32,
}

/// A virtual machine as `vm.query` describes it.
#[derive(Debug, Clone)]
pub struct VmQueryResponse {
    pub command_line_args: String,
    pub cpu_mode: CpuMode,
    pub cpu_model: Option<String>,
    pub name: String,
    pub description: String,
    pub vcpus: i32,
    pub cores: i32,
    pub threads: i32,
    pub cpuset: Option<String>,
    pub nodeset: Option<String>,
    pub enable_cpu_topology_extension: bool,
    pub pin_vcpus: bool,
    pub suspend_on_snapshot: bool,
    pub trusted_platform_module: bool,
    pub memory: i32,
    pub min_memory: Option<i32>,
    pub hyperv_enlightenments: bool,
    pub bootloader: String,
    pub bootloader_ovmf: String,
    pub autostart: bool,
    pub hide_from_msr: bool,
    pub ensure_display_device: bool,
    pub time: String,
    pub shutdown_timeout: i32,
    pub arch_type: Option<String>,
    pub machine_type: Option<String>,
    pub uuid: Option<String>,
    pub devices: Option<Vec<VmDevice>>,
    pub display_available: bool,
    pub id: i32,
    pub status: VmStatus,
    pub enable_secure_boot: bool,
}

} // verus!
