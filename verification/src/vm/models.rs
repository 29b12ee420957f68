//! The data models of the Firecracker Management API. Paths of resources that the VMM uses are
//! held as their path strings.

use vstd::prelude::*;

use crate::executor::arguments::VmmLogLevel;

verus! {

#[derive(Debug, Clone, PartialEq, Eq)]
pub struct BalloonDevice {
    pub amount_mib: i32,
    pub deflate_on_oom: bool,
    pub stats_polling_interval_s: Option<i32>,
}

#[derive(Debug, Clone, PartialEq, Eq)]
pub struct UpdateBalloonDevice {
    pub amount_mib: u16,
}

#[derive(Debug, Clone, PartialEq, Eq)]
pub struct BalloonStatistics {
    pub target_pages: u32,
    pub actual_pages: u32,
    pub target_mib: u32,
    pub actual_mib: u32,
    pub swap_in: Option<u64>,
    pub swap_out: Option<u64>,
    pub major_faults: Option<u64>,
    pub minor_faults: Option<u64>,
    pub free_memory: Option<u64>,
    pub total_memory: Option<u64>,
    pub available_memory: Option<u64>,
    pub disk_caches: Option<u64>,
    pub hugetlb_allocations: Option<u64>,
    pub hugetlb_failures: Option<u64>,
    pub oom_kill: Option<u64>,
    pub alloc_stall: Option<u64>,
    pub async_scan: Option<u64>,
    pub direct_scan: Option<u64>,
    pub async_reclaim: Option<u64>,
    pub direct_reclaim: Option<u64>,
}

#[derive(Debug, Clone, PartialEq, Eq)]
pub struct UpdateBalloonStatistics {
    pub stats_polling_interval_s: u16,
}

#[derive(Debug, Clone, PartialEq, Eq)]
pub struct BootSource {
    /// The path of the kernel image.
    pub kernel_image: String,
    pub boot_args: Option<String>,
    /// The path of the initial RAM disk, if any.
    pub initrd: Option<String>,
}

#[derive(Debug, Clone, PartialEq, Eq)]
pub enum CpuTemplate {
    /// A template held in a file at this path.
    Resource(String),
    /// A template given as JSON text, passed on as it is.
    Untyped(String),
    X86(X86CpuTemplate),
    Arm(ArmCpuTemplate),
}

#[derive(Debug, Clone, PartialEq, Eq)]
pub struct X86CpuTemplate {
    pub kvm_capabilities: Vec<String>,
    pub cpuid_modifiers: Vec<X86CpuidModifier>,
    pub msr_modifiers: Vec<X86MsrModifier>,
}

#[derive(Debug, Clone, PartialEq, Eq)]
pub struct X86CpuidModifier {
    pub leaf: String,
    pub subleaf: String,
    pub flags: u32,
    pub modifiers: Vec<X86CpuidRegisterModifier>,
}

#[derive(Debug, Clone, PartialEq, Eq)]
pub struct X86CpuidRegisterModifier {
    pub register: X86CpuidRegister,
    pub bitmap: String,
}

#[derive(Debug, Clone, Copy, PartialEq, Eq, PartialOrd, Ord)]
pub enum X86CpuidRegister {
    Eax,
    Ebx,
    Ecx,
    Edx,
}

#[derive(Debug, Clone, PartialEq, Eq)]
pub struct X86MsrModifier {
    pub addr: String,
    pub bitmap: String,
}

#[derive(Debug, Clone, PartialEq, Eq)]
pub struct ArmCpuTemplate {
    pub kvm_capabilities: Vec<String>,
    pub vcpu_features: Vec<ArmVcpuFeature>,
    pub register_modifiers: Vec<ArmRegisterModifier>,
}

#[derive(Debug, Clone, PartialEq, Eq)]
pub struct ArmVcpuFeature {
    pub index: usize,
    pub bitmap: String,
}

#[derive(Debug, Clone, PartialEq, Eq)]
pub struct ArmRegisterModifier {
    pub addr: String,
    pub bitmap: String,
}

#[derive(Debug, Clone, PartialEq, Eq)]
pub struct Drive {
    pub drive_id: String,
    pub is_root_device: bool,
    pub cache_type: Option<DriveCacheType>,
    pub partuuid: Option<String>,
    pub is_read_only: Option<bool>,
    /// The path of the block device on the host, if any.
    pub block: Option<String>,
    pub rate_limiter: Option<RateLimiter>,
    pub io_engine: Option<DriveIoEngine>,
    /// The path of the vhost-user socket, if any.
    pub socket: Option<String>,
}

#[derive(Debug, Clone, PartialEq, Eq)]
pub struct UpdateDrive {
    pub drive_id: String,
    pub block: Option<String>,
    pub rate_limiter: Option<RateLimiter>,
}

#[derive(Debug, Clone, Copy, PartialEq, Eq, PartialOrd, Ord)]
pub enum DriveCacheType {
    Unsafe,
    Writeback,
}

#[derive(Debug, Clone, Copy, PartialEq, Eq, PartialOrd, Ord)]
pub enum DriveIoEngine {
    Sync,
    Async,
}

#[derive(Debug, Clone, PartialEq, Eq)]
pub struct RateLimiter {
    pub bandwidth: TokenBucket,
    pub ops: TokenBucket,
}

#[derive(Debug, Clone, PartialEq, Eq)]
pub struct TokenBucket {
    pub size: u64,
    pub one_time_burst: Option<u64>,
    pub refill_time: u64,
}

#[derive(Debug, Clone, PartialEq, Eq)]
pub struct PmemDevice {
    pub id: String,
    /// The path of the backing file on the host.
    pub block: String,
    pub root_device: Option<bool>,
    pub read_only: Option<bool>,
}

#[derive(Debug, Clone, PartialEq, Eq)]
pub struct LoggerSystem {
    /// The path of the log file, if any.
    pub logs: Option<String>,
    pub level: Option<VmmLogLevel>,
    pub show_level: Option<bool>,
    pub show_log_origin: Option<bool>,
    pub module: Option<String>,
}

#[derive(Debug, Clone, PartialEq, Eq)]
pub struct MachineConfiguration {
    pub vcpu_count: u8,
    pub mem_size_mib: usize,
    pub smt: Option<bool>,
    pub track_dirty_pages: Option<bool>,
    pub huge_pages: Option<HugePages>,
}

#[derive(Debug, Clone, Copy, PartialEq, Eq)]
pub enum HugePages {
    /// No huge pages (Firecracker's "None").
    Disabled,
    Hugetlbfs2M,
}

#[derive(Debug, Clone, PartialEq, Eq)]
pub struct MetricsSystem {
    /// The path of the metrics file.
    pub metrics: String,
}

#[derive(Debug, Clone, PartialEq, Eq)]
pub struct MemoryHotplugConfiguration {
    pub total_size_mib: usize,
    pub block_size_mib: Option<usize>,
    pub slot_size_mib: Option<usize>,
}

#[derive(Debug, Clone, PartialEq, Eq)]
pub struct UpdateMemoryHotplugConfiguration {
    pub requested_size_mib: usize,
}

#[derive(Debug, Clone, PartialEq, Eq)]
pub struct MemoryHotplugStatus {
    pub total_size_mib: usize,
    pub slot_size_mib: usize,
    pub block_size_mib: usize,
    pub plugged_size_mib: usize,
    pub requested_size_mib: usize,
}

#[derive(Debug, Clone, PartialEq, Eq)]
pub struct MmdsConfiguration {
    pub version: MmdsVersion,
    pub network_interfaces: Vec<String>,
    pub ipv4_address: Option<crate::net::Ipv4Addr>,
    pub imds_compat: Option<bool>,
}

#[derive(Debug, Clone, Copy, PartialEq, Eq, PartialOrd, Ord)]
pub enum MmdsVersion {
    V1,
    V2,
}

#[derive(Debug, Clone, PartialEq, Eq)]
pub struct EntropyDevice {
    pub rate_limiter: Option<RateLimiter>,
}

#[derive(Debug, Clone, PartialEq, Eq)]
pub struct NetworkInterface {
    pub iface_id: String,
    pub host_dev_name: String,
    pub guest_mac: Option<String>,
    pub rx_rate_limiter: Option<RateLimiter>,
    pub tx_rate_limiter: Option<RateLimiter>,
}

#[derive(Debug, Clone, PartialEq, Eq)]
pub struct UpdateNetworkInterface {
    pub iface_id: String,
    pub rx_rate_limiter: Option<RateLimiter>,
    pub tx_rate_limiter: Option<RateLimiter>,
}

#[derive(Debug, Clone, PartialEq, Eq)]
pub struct CreateSnapshot {
    pub snapshot_type: Option<SnapshotType>,
    /// The path the snapshot is written to.
    pub snapshot: String,
    /// The path the memory file is written to.
    pub mem_file: String,
}

#[derive(Debug, Clone, Copy, PartialEq, Eq, PartialOrd, Ord)]
pub enum SnapshotType {
    Full,
    Diff,
}

#[derive(Debug, Clone, PartialEq, Eq)]
pub struct LoadSnapshot {
    pub track_dirty_pages: Option<bool>,
    pub mem_backend: MemoryBackend,
    /// The path of the snapshot file.
    pub snapshot: String,
    pub resume_vm: Option<bool>,
    pub network_overrides: Vec<NetworkOverride>,
}

#[derive(Debug, Clone, PartialEq, Eq)]
pub struct MemoryBackend {
    pub backend_type: MemoryBackendType,
    /// The path of the memory backend.
    pub backend: String,
}

#[derive(Debug, Clone, Copy, PartialEq, Eq, PartialOrd, Ord)]
pub enum MemoryBackendType {
    File,
    Uffd,
}

#[derive(Debug, Clone, PartialEq, Eq)]
pub struct NetworkOverride {
    pub iface_id: String,
    pub host_dev_name: String,
}

#[derive(Debug, Clone, PartialEq, Eq)]
pub struct VsockDevice {
    pub guest_cid: u32,
    /// The path of the vsock Unix socket.
    pub uds: String,
}

#[derive(Debug, Clone, PartialEq, Eq, PartialOrd, Ord, Hash)]
pub struct Info {
    pub id: String,
    pub is_paused: bool,
    pub vmm_version: String,
    pub app_name: String,
}

} // verus!
