use vstd::prelude::*;
use std::collections::HashMap;

verus! {

#[derive(Debug, Clone, PartialEq, Eq, Structural)]
pub enum VirtType {
    Container,
    Vm,
}

#[derive(Debug, Clone, PartialEq, Eq, Structural)]
pub enum VirtStatus {
    Running,
    Stopped,
    Starting,
    Stopping,
    Unknown,
    Error,
    Frozen,
    Freezing,
    Thawed,
    Aborting,
}

#[derive(Debug, Clone, PartialEq, Eq, Structural)]
pub enum AliasType {
    Inet,
    Inet6,
}

#[derive(Debug, Clone, PartialEq, Eq, Structural)]
pub enum RootDiskIoBus {
    Nvme,
    VirtioBlk,
    VirtioScsi,
}

/// A network address of an instance.
#[derive(Debug, Clone)]
pub struct Aliases {
    pub typ: AliasType,
    pub address: String,
    pub netmask: Option<i32>,
}

/// The image an instance runs.
#[derive(Debug, Clone)]
pub struct Image {
    pub architecture: Option<String>,
    pub description: Option<String>,
    pub os: Option<String>,
    pub release: Option<String>,
    pub serial: Option<String>,
    pub typ: Option<String>,
    pub variant: Option<String>,
    pub secureboot: Option<bool>,
}

#[derive(Debug, Clone)]
pub struct Uid {
    pub hostid: i32,
    pub maprange: i32,
    pub nsid: i32,
}

#[derive(Debug, Clone)]
pub struct Gid {
    pub hostid: i32,
    pub maprange: i32,
    pub nsid: i32,
}

#[derive(Debug, Clone)]
pub struct UsernsIdmap {
    pub uid: Uid,
    pub gid: Gid,
}

/// Changes to an instance; what is `None` stays as it is.
#[derive(Debug, Clone)]
pub struct ContainerUpdate {
    pub environment: Option<HashMap<String, String>>,
    pub autostart: Option<bool>,
    pub cpu: Option<String>,
    pub memory: Option<i32>,
    pub vnc_port: Option<i32>,
    pub vnc_enabled: Option<bool>,
    pub vnc_password: Option<String>,
    pub secure_boot: Option<bool>,
    pub root_disk_size: Option<i32>,
    pub root_disk_io_bus: Option<RootDiskIoBus>,
}

impl Default for ContainerUpdate {
    fn default() -> (u: Self)
        ensures
            u.environment is None,
            u.autostart is None,
            u.cpu is None,
            u.memory is None,
            u.vnc_port is None,
            u.vnc_enabled is None,
            u.vnc_password is None,
            u.secure_boot is None,
            u.root_disk_size is None,
            u.root_disk_io_bus is None,
    {
        ContainerUpdate {
            environment: None,
            autostart: None,
            cpu: None,
            memory: None,
            vnc_port: None,
            vnc_enabled: None,
            vnc_password: None,
            secure_boot: None,
            root_disk_size: None,
            root_disk_io_bus: None,
        }
    }
}

#[derive(Debug, Clone, PartialEq, Eq, Structural)]
pub enum InstanceType {
    Container,
    Vm,
}

#[derive(Debug, Clone)]
pub struct ImageQueryResponse {
    pub label: String,
    pub os: String,
    pub release: String,
    pub archs: Vec<String>,
    pub variant: String,
    pub instance_types: Vec<InstanceType>,
    pub secureboot: Option<bool>,
}

/// A device of an instance, by kind.
#[derive(Debug, Clone)]
pub enum Device {
    Disk(DiskDevice),
    Gpu(GpuDevice),
    Proxy(ProxyDevice),
    Tpm(TPMDevice),
    Usb(USBDevice),
    Nic(NICDevice),
    Pci(PCIDevice),
}

#[derive(Debug, Clone)]
pub struct DiskDevice {
    pub name: Option<String>,
    pub description: Option<String>,
    pub readonly: Option<bool>,
    pub source: Option<String>,
    pub destination: Option<String>,
    pub boot_priority: Option<i32>,
    pub io_bus: Option<RootDiskIoBus>,
    pub storage_pool: Option<String>,
}

#[derive(Debug, Clone)]
pub struct GpuDevice {
    pub name: Option<String>,
    pub description: Option<String>,
    pub readonly: Option<bool>,
    pub gpu_type: String,
    pub id: Option<String>,
    pub gid: Option<i32>,
    pub uid: Option<i32>,
    pub mode: Option<String>,
    pub mdev: Option<String>,
    pub mig_uuid: Option<String>,
    pub pci: Option<String>,
    pub productid: Option<String>,
    pub vendorid: Option<String>,
}

#[derive(Debug, Clone)]
pub struct ProxyDevice {
    pub name: Option<String>,
    pub description: Option<String>,
    pub readonly: Option<bool>,
    pub source_proto: String,
    pub source_port: i32,
    pub dest_proto: String,
    pub dest_port: i32,
}

#[derive(Debug, Clone)]
pub struct TPMDevice {
    pub name: Option<String>,
    pub description: Option<String>,
    pub readonly: Option<bool>,
    pub path: String,
    pub pathrm: Option<String>,
}

#[derive(Debug, Clone)]
pub struct USBDevice {
    pub name: Option<String>,
    pub description: Option<String>,
    pub readonly: Option<bool>,
    pub bus: Option<i32>,
    pub dev: Option<i32>,
    pub product_id: Option<String>,
    pub vendor_id: Option<String>,
}

#[derive(Debug, Clone)]
pub struct NICDevice {
    pub name: Option<String>,
    pub description: Option<String>,
    pub readonly: Option<bool>,
    pub network: Option<String>,
    pub nic_type: Option<String>,
    pub parent: Option<String>,
}

#[derive(Debug, Clone)]
pub struct PCIDevice {
    pub name: Option<String>,
    pub description: Option<String>,
    pub readonly: Option<bool>,
    pub address: String,
}

/// How to stop or restart an instance.
#[derive(Debug, Clone)]
pub struct StopArgs {
    pub timeout: Option<i32>,
    pub force: Option<bool>,
}

impl Default for StopArgs {
    fn default() -> (a: Self)
        ensures
            a.timeout is None,
            a.force is None,
    {
        StopArgs { timeout: None, force: None }
    }
}

#[derive(Debug, Clone)]
pub struct ImageChoice {
    pub label: String,
    pub os: String,
    pub release: String,
    pub archs: Vec<String>,
    pub variant: String,
    pub instance_types: Vec<String>,
    pub secureboot: Option<bool>,
}

/// A container or virtual machine instance as `virt.instance.query` describes it.
#[derive(Debug, Clone)]
pub struct ContainerResponse {
    pub id: String,
    pub name: String,
    pub typ: VirtType,
    pub status: VirtStatus,
    pub cpu: Option<String>,
    pub memory: Option<i32>,
    pub autostart: bool,
    pub environment: HashMap<String, String>,
    pub aliases: Vec<Aliases>,
    pub image: Image,
    pub userns_idmap: Option<UsernsIdmap>,
    pub raw: Option<HashMap<serde_json::Value, serde_json::Value>>,
    pub vnc_enabled: bool,
    pub vnc_port: Option<i32>,
    pub vnc_password: Option<String>,
    pub secure_boot: Option<bool>,
    pub root_disk_size: Option<i32>,
    pub root_disk_io_bus: Option<RootDiskIoBus>,
    pub storage_pool: Option<String>,
}

} // verus!
