//! The configuration of a VM, either new or restored from a snapshot.

use vstd::prelude::*;

use super::models::{
    BalloonDevice, BootSource, CpuTemplate, Drive, EntropyDevice, LoadSnapshot, LoggerSystem, MachineConfiguration,
    MemoryHotplugConfiguration, MetricsSystem, MmdsConfiguration, NetworkInterface, PmemDevice, VsockDevice,
};

verus! {

/// A method of initialization used when booting a new (not restored from snapshot) VM.
#[derive(Debug, Clone, PartialEq, Eq, PartialOrd, Ord, Hash)]
pub enum InitMethod {
    /// Issue sequential calls to the Management API to perform initialization and boot.
    ViaApiCalls,
    /// Create an intermittent Firecracker JSON configuration that is serialized to the
    /// given virtual path, and pass it to Firecracker in order for initialization and boot
    /// to be performed automatically.
    ViaJsonConfiguration(String),
}

impl Default for InitMethod {
    fn default() -> (r: Self)
        ensures
            r == InitMethod::ViaApiCalls,
    {
        InitMethod::ViaApiCalls
    }
}

/// The full data of various devices associated with a VM. Even when restoring from a snapshot, this information
/// is required for initialization to proceed.
#[derive(Debug, Clone, PartialEq, Eq)]
pub struct VmConfigurationData {
    pub boot_source: BootSource,
    pub drives: Vec<Drive>,
    pub pmem_devices: Vec<PmemDevice>,
    pub machine_configuration: MachineConfiguration,
    pub cpu_template: Option<CpuTemplate>,
    pub network_interfaces: Vec<NetworkInterface>,
    pub balloon_device: Option<BalloonDevice>,
    pub vsock_device: Option<VsockDevice>,
    pub logger_system: Option<LoggerSystem>,
    pub metrics_system: Option<MetricsSystem>,
    pub memory_hotplug_configuration: Option<MemoryHotplugConfiguration>,
    pub mmds_configuration: Option<MmdsConfiguration>,
    pub entropy_device: Option<EntropyDevice>,
}

/// A configuration for a VM, either being new or having been restored from a snapshot.
#[derive(Debug, Clone, PartialEq, Eq)]
pub enum VmConfiguration {
    /// The VM is new, thus its initialization process is controlled.
    New { init_method: InitMethod, data: VmConfigurationData },
    /// The VM is restored from a snapshot, thus its initialization process is derived from that of the snapshot.
    RestoredFromSnapshot { load_snapshot: LoadSnapshot, data: VmConfigurationData },
}

impl VmConfiguration {
    /// The data of the configuration.
    pub open spec fn spec_data(self) -> VmConfigurationData {
        match self {
            VmConfiguration::New { data, .. } => data,
            VmConfiguration::RestoredFromSnapshot { data, .. } => data,
        }
    }

    /// The configuration with its data replaced.
    pub open spec fn with_data(self, data: VmConfigurationData) -> VmConfiguration {
        match self {
            VmConfiguration::New { init_method, .. } => VmConfiguration::New { init_method, data },
            VmConfiguration::RestoredFromSnapshot { load_snapshot, .. } => VmConfiguration::RestoredFromSnapshot { load_snapshot, data },
        }
    }

    /// A shared reference to the [VmConfigurationData] inside this configuration.
    pub fn get_data(&self) -> (r: &VmConfigurationData)
        ensures
            *r == self.spec_data(),
    {
        match self {
            VmConfiguration::New { init_method: _, data } => data,
            VmConfiguration::RestoredFromSnapshot { load_snapshot: _, data } => data,
        }
    }

    /// A mutable reference to the [VmConfigurationData] inside this configuration.
    pub fn get_data_mut(&mut self) -> (r: &mut VmConfigurationData)
        ensures
            *r == old(self).spec_data(),
            *final(self) == old(self).with_data(*final(r)),
    {
        match self {
            VmConfiguration::New { init_method: _, data } => data,
            VmConfiguration::RestoredFromSnapshot { load_snapshot: _, data } => data,
        }
    }
}

} // verus!
