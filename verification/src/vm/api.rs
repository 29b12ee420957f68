//! The requests to the Firecracker Management API: which route and method each binding uses,
//! which part of the configuration each request carries, the requests that initialize a VM, and
//! how a response is judged.

use vstd::prelude::*;

use super::configuration::VmConfigurationData;
use super::VmError;

verus! {

/// Whether a character has the Unicode `White_Space` property: the ASCII tab, line feed,
/// vertical tab, form feed, carriage return and space, the next line and no-break space, the
/// Ogham space mark, the spaces from en quad to hair space, the line and paragraph separators,
/// the narrow no-break space, the medium mathematical space and the ideographic space.
pub open spec fn is_whitespace(c: char) -> bool {
    let n = c as u32;
    ||| 0x9 <= n <= 0xD
    ||| n == 0x20
    ||| n == 0x85
    ||| n == 0xA0
    ||| n == 0x1680
    ||| 0x2000 <= n <= 0x200A
    ||| n == 0x2028
    ||| n == 0x2029
    ||| n == 0x202F
    ||| n == 0x205F
    ||| n == 0x3000
}

/// Whether a character has the Unicode `White_Space` property, the test that `str::trim` strips
/// characters by.
fn char_is_whitespace(c: char) -> (r: bool)
    ensures
        r == is_whitespace(c),
{
    let n = c as u32;
    (0x9 <= n && n <= 0xD) || n == 0x20 || n == 0x85 || n == 0xA0 || n == 0x1680 || (0x2000 <= n && n <= 0x200A)
        || n == 0x2028 || n == 0x2029 || n == 0x202F || n == 0x205F || n == 0x3000
}

/// An HTTP method of the Management API.
#[derive(Debug, Clone, Copy, PartialEq, Eq, Structural)]
pub enum ApiMethod {
    Get,
    Put,
    Patch,
}

impl ApiMethod {
    /// The method's name as HTTP writes it.
    pub fn as_str(&self) -> (r: &'static str)
        ensures
            *self == ApiMethod::Get ==> r@ == "GET"@,
            *self == ApiMethod::Put ==> r@ == "PUT"@,
            *self == ApiMethod::Patch ==> r@ == "PATCH"@,
    {
        match self {
            ApiMethod::Get => "GET",
            ApiMethod::Put => "PUT",
            ApiMethod::Patch => "PATCH",
        }
    }
}

/// What a request carries as its JSON body: nothing, a part of the VM's configuration data (a
/// drive, a pmem device or a network interface by its position), an action, or a value that the
/// caller supplies.
#[derive(Debug, Clone, Copy, PartialEq, Eq, Structural)]
pub enum ApiPayload {
    Empty,
    BootSource,
    Drive(usize),
    PmemDevice(usize),
    MachineConfiguration,
    CpuTemplate,
    NetworkInterface(usize),
    BalloonDevice,
    VsockDevice,
    LoggerSystem,
    MetricsSystem,
    MmdsConfiguration,
    EntropyDevice,
    MemoryHotplugConfiguration,
    LoadSnapshot,
    InstanceStart,
    FlushMetrics,
    SendCtrlAltDel,
    PauseState,
    ResumeState,
    Supplied,
}

/// A request to the Management API: its route, method and body.
#[derive(Debug, Clone, PartialEq, Eq)]
pub struct ApiRequest {
    pub route: String,
    pub method: ApiMethod,
    pub payload: ApiPayload,
}

/// The abstract content of an [ApiRequest].
pub type ApiRequestView = (Seq<char>, ApiMethod, ApiPayload);

impl View for ApiRequest {
    type V = ApiRequestView;

    open spec fn view(&self) -> ApiRequestView {
        (self.route@, self.method, self.payload)
    }
}

/// A PUT of the given payload to the given route.
pub open spec fn put(route: Seq<char>, payload: ApiPayload) -> ApiRequestView {
    (route, ApiMethod::Put, payload)
}

/// The requests that configure the drives, in order.
pub open spec fn drive_requests(drive_ids: Seq<Seq<char>>) -> Seq<ApiRequestView>
    decreases drive_ids.len(),
{
    if drive_ids.len() == 0 {
        Seq::empty()
    } else {
        drive_requests(drive_ids.drop_last()).push(
            put("/drives/"@ + drive_ids.last(), ApiPayload::Drive((drive_ids.len() - 1) as usize)),
        )
    }
}

/// The requests that configure the pmem devices, in order.
pub open spec fn pmem_requests(pmem_ids: Seq<Seq<char>>) -> Seq<ApiRequestView>
    decreases pmem_ids.len(),
{
    if pmem_ids.len() == 0 {
        Seq::empty()
    } else {
        pmem_requests(pmem_ids.drop_last()).push(
            put("/pmem/"@ + pmem_ids.last(), ApiPayload::PmemDevice((pmem_ids.len() - 1) as usize)),
        )
    }
}

/// The requests that configure the network interfaces, in order.
pub open spec fn network_interface_requests(iface_ids: Seq<Seq<char>>) -> Seq<ApiRequestView>
    decreases iface_ids.len(),
{
    if iface_ids.len() == 0 {
        Seq::empty()
    } else {
        network_interface_requests(iface_ids.drop_last()).push(
            put("/network-interfaces/"@ + iface_ids.last(), ApiPayload::NetworkInterface((iface_ids.len() - 1) as usize)),
        )
    }
}

/// The request for an optional device: none when it is absent.
pub open spec fn optional_request(present: bool, route: Seq<char>, payload: ApiPayload) -> Seq<ApiRequestView> {
    if present {
        seq![put(route, payload)]
    } else {
        Seq::empty()
    }
}

/// The drive identifiers of the configuration data, in order.
pub open spec fn drive_ids(data: VmConfigurationData) -> Seq<Seq<char>> {
    data.drives@.map_values(|d: super::models::Drive| d.drive_id@)
}

/// The pmem device identifiers of the configuration data, in order.
pub open spec fn pmem_ids(data: VmConfigurationData) -> Seq<Seq<char>> {
    data.pmem_devices@.map_values(|p: super::models::PmemDevice| p.id@)
}

/// The network interface identifiers of the configuration data, in order.
pub open spec fn iface_ids(data: VmConfigurationData) -> Seq<Seq<char>> {
    data.network_interfaces@.map_values(|n: super::models::NetworkInterface| n.iface_id@)
}

/// The requests that initialize a new VM: the boot source, every drive, every pmem device, the
/// machine configuration, the CPU template if any, every network interface, then the balloon,
/// vsock, logger, metrics, MMDS and entropy devices and the memory hotplug configuration that are
/// present, and finally the start of the instance. These are the parts of the configuration data
/// that a JSON configuration file carries.
pub open spec fn init_new_plan(data: VmConfigurationData) -> Seq<ApiRequestView> {
    seq![put("/boot-source"@, ApiPayload::BootSource)]
        + drive_requests(drive_ids(data))
        + pmem_requests(pmem_ids(data))
        + seq![put("/machine-config"@, ApiPayload::MachineConfiguration)]
        + optional_request(data.cpu_template is Some, "/cpu-config"@, ApiPayload::CpuTemplate)
        + network_interface_requests(iface_ids(data))
        + optional_request(data.balloon_device is Some, "/balloon"@, ApiPayload::BalloonDevice)
        + optional_request(data.vsock_device is Some, "/vsock"@, ApiPayload::VsockDevice)
        + optional_request(data.logger_system is Some, "/logger"@, ApiPayload::LoggerSystem)
        + optional_request(data.metrics_system is Some, "/metrics"@, ApiPayload::MetricsSystem)
        + optional_request(data.mmds_configuration is Some, "/mmds/config"@, ApiPayload::MmdsConfiguration)
        + optional_request(data.entropy_device is Some, "/entropy"@, ApiPayload::EntropyDevice)
        + optional_request(
            data.memory_hotplug_configuration is Some,
            "/hotplug/memory"@,
            ApiPayload::MemoryHotplugConfiguration,
        )
        + seq![put("/actions"@, ApiPayload::InstanceStart)]
}

/// The requests that initialize a VM restored from a snapshot: the logger and metrics systems that
/// are present, then the loading of the snapshot.
pub open spec fn init_restored_plan(data: VmConfigurationData) -> Seq<ApiRequestView> {
    optional_request(data.logger_system is Some, "/logger"@, ApiPayload::LoggerSystem)
        + optional_request(data.metrics_system is Some, "/metrics"@, ApiPayload::MetricsSystem)
        + seq![put("/snapshot/load"@, ApiPayload::LoadSnapshot)]
}

/// The views of a list of requests.
pub open spec fn request_views(requests: Seq<ApiRequest>) -> Seq<ApiRequestView> {
    requests.map_values(|r: ApiRequest| r@)
}

/// A PUT of the given payload to the given route.
fn put_request(route: String, payload: ApiPayload) -> (r: ApiRequest)
    ensures
        r@ == put(route@, payload),
{
    ApiRequest { route, method: ApiMethod::Put, payload }
}

/// `prefix` followed by `id`, as an owned route.
fn route_with_id(prefix: &str, id: &String) -> (r: String)
    ensures
        r@ == prefix@ + id@,
{
    let mut r = prefix.to_owned();
    r.append(id.as_str());
    r
}

/// Push the request for an optional device when it is present.
fn push_optional(requests: &mut Vec<ApiRequest>, present: bool, route: &str, payload: ApiPayload)
    ensures
        request_views(final(requests)@) == request_views(old(requests)@) + optional_request(present, route@, payload),
{
    if present {
        requests.push(put_request(route.to_owned(), payload));
    }
    assert(request_views(requests@) =~= request_views(old(requests)@) + optional_request(present, route@, payload));
}

/// Push one request per drive, in order.
fn push_drives(requests: &mut Vec<ApiRequest>, data: &VmConfigurationData)
    ensures
        request_views(final(requests)@) == request_views(old(requests)@) + drive_requests(drive_ids(*data)),
{
    let ghost before = request_views(requests@);
    let ghost ids = drive_ids(*data);
    let mut i: usize = 0;
    assert(ids.take(0) =~= Seq::<Seq<char>>::empty());
    assert(before + drive_requests(ids.take(0)) =~= before);
    while i < data.drives.len()
        invariant
            i <= data.drives.len(),
            ids == drive_ids(*data),
            ids.len() == data.drives.len(),
            request_views(requests@) == before + drive_requests(ids.take(i as int)),
        decreases data.drives.len() - i,
    {
        let ghost prev = requests@;
        let route = route_with_id("/drives/", &data.drives[i].drive_id);
        requests.push(put_request(route, ApiPayload::Drive(i)));
        assert(ids.take(i + 1).drop_last() =~= ids.take(i as int));
        assert(ids.take(i + 1).last() == data.drives@[i as int].drive_id@);
        assert(request_views(requests@) =~= request_views(prev).push(put("/drives/"@ + data.drives@[i as int].drive_id@, ApiPayload::Drive(i))));
        i += 1;
    }
    assert(ids.take(data.drives.len() as int) =~= ids);
}

/// Push one request per pmem device, in order.
fn push_pmem_devices(requests: &mut Vec<ApiRequest>, data: &VmConfigurationData)
    ensures
        request_views(final(requests)@) == request_views(old(requests)@) + pmem_requests(pmem_ids(*data)),
{
    let ghost before = request_views(requests@);
    let ghost ids = pmem_ids(*data);
    let mut i: usize = 0;
    assert(ids.take(0) =~= Seq::<Seq<char>>::empty());
    assert(before + pmem_requests(ids.take(0)) =~= before);
    while i < data.pmem_devices.len()
        invariant
            i <= data.pmem_devices.len(),
            ids == pmem_ids(*data),
            ids.len() == data.pmem_devices.len(),
            request_views(requests@) == before + pmem_requests(ids.take(i as int)),
        decreases data.pmem_devices.len() - i,
    {
        let ghost prev = requests@;
        let route = route_with_id("/pmem/", &data.pmem_devices[i].id);
        requests.push(put_request(route, ApiPayload::PmemDevice(i)));
        assert(ids.take(i + 1).drop_last() =~= ids.take(i as int));
        assert(ids.take(i + 1).last() == data.pmem_devices@[i as int].id@);
        assert(request_views(requests@) =~= request_views(prev).push(
            put("/pmem/"@ + data.pmem_devices@[i as int].id@, ApiPayload::PmemDevice(i)),
        ));
        i += 1;
    }
    assert(ids.take(data.pmem_devices.len() as int) =~= ids);
}

/// Push one request per network interface, in order.
fn push_network_interfaces(requests: &mut Vec<ApiRequest>, data: &VmConfigurationData)
    ensures
        request_views(final(requests)@) == request_views(old(requests)@) + network_interface_requests(iface_ids(*data)),
{
    let ghost before = request_views(requests@);
    let ghost ids = iface_ids(*data);
    let mut i: usize = 0;
    assert(ids.take(0) =~= Seq::<Seq<char>>::empty());
    assert(before + network_interface_requests(ids.take(0)) =~= before);
    while i < data.network_interfaces.len()
        invariant
            i <= data.network_interfaces.len(),
            ids == iface_ids(*data),
            ids.len() == data.network_interfaces.len(),
            request_views(requests@) == before + network_interface_requests(ids.take(i as int)),
        decreases data.network_interfaces.len() - i,
    {
        let ghost prev = requests@;
        let route = route_with_id("/network-interfaces/", &data.network_interfaces[i].iface_id);
        requests.push(put_request(route, ApiPayload::NetworkInterface(i)));
        assert(ids.take(i + 1).drop_last() =~= ids.take(i as int));
        assert(ids.take(i + 1).last() == data.network_interfaces@[i as int].iface_id@);
        assert(request_views(requests@) =~= request_views(prev).push(
            put("/network-interfaces/"@ + data.network_interfaces@[i as int].iface_id@, ApiPayload::NetworkInterface(i)),
        ));
        i += 1;
    }
    assert(ids.take(data.network_interfaces.len() as int) =~= ids);
}

/// The requests that initialize a new VM from its configuration data, in the order they are sent.
pub fn init_new(data: &VmConfigurationData) -> (r: Vec<ApiRequest>)
    ensures
        request_views(r@) == init_new_plan(*data),
{
    let mut requests: Vec<ApiRequest> = Vec::new();
    requests.push(put_request("/boot-source".to_owned(), ApiPayload::BootSource));
    let ghost p0 = seq![put("/boot-source"@, ApiPayload::BootSource)];
    assert(request_views(requests@) =~= p0);
    push_drives(&mut requests, data);
    push_pmem_devices(&mut requests, data);
    let ghost p1 = p0 + drive_requests(drive_ids(*data)) + pmem_requests(pmem_ids(*data));
    let ghost before = request_views(requests@);
    requests.push(put_request("/machine-config".to_owned(), ApiPayload::MachineConfiguration));
    let ghost p2 = p1 + seq![put("/machine-config"@, ApiPayload::MachineConfiguration)];
    assert(request_views(requests@) =~= before.push(put("/machine-config"@, ApiPayload::MachineConfiguration)));
    assert(request_views(requests@) =~= p2);
    push_optional(&mut requests, data.cpu_template.is_some(), "/cpu-config", ApiPayload::CpuTemplate);
    push_network_interfaces(&mut requests, data);
    push_optional(&mut requests, data.balloon_device.is_some(), "/balloon", ApiPayload::BalloonDevice);
    push_optional(&mut requests, data.vsock_device.is_some(), "/vsock", ApiPayload::VsockDevice);
    push_optional(&mut requests, data.logger_system.is_some(), "/logger", ApiPayload::LoggerSystem);
    push_optional(&mut requests, data.metrics_system.is_some(), "/metrics", ApiPayload::MetricsSystem);
    push_optional(&mut requests, data.mmds_configuration.is_some(), "/mmds/config", ApiPayload::MmdsConfiguration);
    push_optional(&mut requests, data.entropy_device.is_some(), "/entropy", ApiPayload::EntropyDevice);
    push_optional(
        &mut requests,
        data.memory_hotplug_configuration.is_some(),
        "/hotplug/memory",
        ApiPayload::MemoryHotplugConfiguration,
    );
    let ghost before = request_views(requests@);
    requests.push(put_request("/actions".to_owned(), ApiPayload::InstanceStart));
    assert(request_views(requests@) =~= before.push(put("/actions"@, ApiPayload::InstanceStart)));
    assert(request_views(requests@) =~= init_new_plan(*data));
    requests
}

proof fn lemma_drive_requests(ids: Seq<Seq<char>>, i: int)
    requires
        0 <= i < ids.len(),
    ensures
        drive_requests(ids).len() == ids.len(),
        drive_requests(ids)[i] == put("/drives/"@ + ids[i], ApiPayload::Drive(i as usize)),
    decreases ids.len(),
{
    reveal_with_fuel(drive_requests, 2);
    if ids.len() > 1 {
        lemma_drive_requests(ids.drop_last(), if i < ids.len() - 1 { i } else { 0 });
    }
}

proof fn lemma_pmem_requests(ids: Seq<Seq<char>>, i: int)
    requires
        0 <= i < ids.len(),
    ensures
        pmem_requests(ids).len() == ids.len(),
        pmem_requests(ids)[i] == put("/pmem/"@ + ids[i], ApiPayload::PmemDevice(i as usize)),
    decreases ids.len(),
{
    reveal_with_fuel(pmem_requests, 2);
    if ids.len() > 1 {
        lemma_pmem_requests(ids.drop_last(), if i < ids.len() - 1 { i } else { 0 });
    }
}

proof fn lemma_network_interface_requests(ids: Seq<Seq<char>>, i: int)
    requires
        0 <= i < ids.len(),
    ensures
        network_interface_requests(ids).len() == ids.len(),
        network_interface_requests(ids)[i] == put(
            "/network-interfaces/"@ + ids[i],
            ApiPayload::NetworkInterface(i as usize),
        ),
    decreases ids.len(),
{
    reveal_with_fuel(network_interface_requests, 2);
    if ids.len() > 1 {
        lemma_network_interface_requests(ids.drop_last(), if i < ids.len() - 1 { i } else { 0 });
    }
}

/// Initializing a new VM through API calls sets up every part of the configuration data that a
/// JSON configuration file carries: the boot source first, the machine configuration, every
/// drive, pmem device and network interface, and each optional device that is present; the
/// instance is started last.
pub proof fn lemma_init_new_configures_everything(data: VmConfigurationData)
    ensures
        init_new_plan(data)[0] == put("/boot-source"@, ApiPayload::BootSource),
        init_new_plan(data).last() == put("/actions"@, ApiPayload::InstanceStart),
        init_new_plan(data).contains(put("/machine-config"@, ApiPayload::MachineConfiguration)),
        forall|i: int| 0 <= i < data.drives.len() ==> init_new_plan(data).contains(
            put("/drives/"@ + (#[trigger] data.drives@[i]).drive_id@, ApiPayload::Drive(i as usize)),
        ),
        forall|i: int| 0 <= i < data.pmem_devices.len() ==> init_new_plan(data).contains(
            put("/pmem/"@ + (#[trigger] data.pmem_devices@[i]).id@, ApiPayload::PmemDevice(i as usize)),
        ),
        forall|i: int| 0 <= i < data.network_interfaces.len() ==> init_new_plan(data).contains(
            put(
                "/network-interfaces/"@ + (#[trigger] data.network_interfaces@[i]).iface_id@,
                ApiPayload::NetworkInterface(i as usize),
            ),
        ),
        data.cpu_template is Some ==> init_new_plan(data).contains(put("/cpu-config"@, ApiPayload::CpuTemplate)),
        data.balloon_device is Some ==> init_new_plan(data).contains(put("/balloon"@, ApiPayload::BalloonDevice)),
        data.vsock_device is Some ==> init_new_plan(data).contains(put("/vsock"@, ApiPayload::VsockDevice)),
        data.logger_system is Some ==> init_new_plan(data).contains(put("/logger"@, ApiPayload::LoggerSystem)),
        data.metrics_system is Some ==> init_new_plan(data).contains(put("/metrics"@, ApiPayload::MetricsSystem)),
        data.mmds_configuration is Some ==> init_new_plan(data).contains(
            put("/mmds/config"@, ApiPayload::MmdsConfiguration),
        ),
        data.entropy_device is Some ==> init_new_plan(data).contains(put("/entropy"@, ApiPayload::EntropyDevice)),
        data.memory_hotplug_configuration is Some ==> init_new_plan(data).contains(
            put("/hotplug/memory"@, ApiPayload::MemoryHotplugConfiguration),
        ),
{
    broadcast use crate::text::lemma_add_contains;

    let boot = seq![put("/boot-source"@, ApiPayload::BootSource)];
    let machine = seq![put("/machine-config"@, ApiPayload::MachineConfiguration)];
    let start = seq![put("/actions"@, ApiPayload::InstanceStart)];
    assert(boot[0] == put("/boot-source"@, ApiPayload::BootSource));
    assert(machine[0] == put("/machine-config"@, ApiPayload::MachineConfiguration));
    assert(machine.contains(put("/machine-config"@, ApiPayload::MachineConfiguration)));
    assert forall|i: int| 0 <= i < data.drives.len() implies init_new_plan(data).contains(
        put("/drives/"@ + (#[trigger] data.drives@[i]).drive_id@, ApiPayload::Drive(i as usize)),
    ) by {
        lemma_drive_requests(drive_ids(data), i);
        let x = put("/drives/"@ + data.drives@[i].drive_id@, ApiPayload::Drive(i as usize));
        assert(drive_requests(drive_ids(data))[i] == x);
        assert(drive_requests(drive_ids(data)).contains(x));
    }
    assert forall|i: int| 0 <= i < data.pmem_devices.len() implies init_new_plan(data).contains(
        put("/pmem/"@ + (#[trigger] data.pmem_devices@[i]).id@, ApiPayload::PmemDevice(i as usize)),
    ) by {
        lemma_pmem_requests(pmem_ids(data), i);
        let x = put("/pmem/"@ + data.pmem_devices@[i].id@, ApiPayload::PmemDevice(i as usize));
        assert(pmem_requests(pmem_ids(data))[i] == x);
        assert(pmem_requests(pmem_ids(data)).contains(x));
    }
    assert forall|i: int| 0 <= i < data.network_interfaces.len() implies init_new_plan(data).contains(
        put(
            "/network-interfaces/"@ + (#[trigger] data.network_interfaces@[i]).iface_id@,
            ApiPayload::NetworkInterface(i as usize),
        ),
    ) by {
        lemma_network_interface_requests(iface_ids(data), i);
        let x = put("/network-interfaces/"@ + data.network_interfaces@[i].iface_id@, ApiPayload::NetworkInterface(i as usize));
        assert(network_interface_requests(iface_ids(data))[i] == x);
        assert(network_interface_requests(iface_ids(data)).contains(x));
    }
    lemma_optional_contains(data.cpu_template is Some, "/cpu-config"@, ApiPayload::CpuTemplate);
    lemma_optional_contains(data.balloon_device is Some, "/balloon"@, ApiPayload::BalloonDevice);
    lemma_optional_contains(data.vsock_device is Some, "/vsock"@, ApiPayload::VsockDevice);
    lemma_optional_contains(data.logger_system is Some, "/logger"@, ApiPayload::LoggerSystem);
    lemma_optional_contains(data.metrics_system is Some, "/metrics"@, ApiPayload::MetricsSystem);
    lemma_optional_contains(data.mmds_configuration is Some, "/mmds/config"@, ApiPayload::MmdsConfiguration);
    lemma_optional_contains(data.entropy_device is Some, "/entropy"@, ApiPayload::EntropyDevice);
    lemma_optional_contains(
        data.memory_hotplug_configuration is Some,
        "/hotplug/memory"@,
        ApiPayload::MemoryHotplugConfiguration,
    );
}

proof fn lemma_optional_contains(present: bool, route: Seq<char>, payload: ApiPayload)
    ensures
        present ==> optional_request(present, route, payload).contains(put(route, payload)),
{
    if present {
        assert(optional_request(present, route, payload)[0] == put(route, payload));
    }
}

/// The requests that initialize a VM restored from a snapshot, in the order they are sent.
pub fn init_restored_from_snapshot(data: &VmConfigurationData) -> (r: Vec<ApiRequest>)
    ensures
        request_views(r@) == init_restored_plan(*data),
{
    let mut requests: Vec<ApiRequest> = Vec::new();
    assert(request_views(requests@) =~= Seq::<ApiRequestView>::empty());
    push_optional(&mut requests, data.logger_system.is_some(), "/logger", ApiPayload::LoggerSystem);
    push_optional(&mut requests, data.metrics_system.is_some(), "/metrics", ApiPayload::MetricsSystem);
    requests.push(put_request("/snapshot/load".to_owned(), ApiPayload::LoadSnapshot));
    assert(request_views(requests@) =~= init_restored_plan(*data));
    requests
}

/// A binding of the Management API.
#[derive(Debug, Clone, PartialEq, Eq)]
pub enum VmApiCall {
    GetInfo,
    FlushMetrics,
    GetBalloonDevice,
    UpdateBalloonDevice,
    GetBalloonStatistics,
    UpdateBalloonStatistics,
    /// Update the drive with this identifier.
    UpdateDrive(String),
    /// Update the network interface with this identifier.
    UpdateNetworkInterface(String),
    GetMachineConfiguration,
    CreateSnapshot,
    GetFirecrackerVersion,
    GetEffectiveConfiguration,
    Pause,
    Resume,
    CreateMmds,
    UpdateMmds,
    GetMmds,
}

/// The request that a binding sends.
pub open spec fn call_request(call: VmApiCall) -> ApiRequestView {
    match call {
        VmApiCall::GetInfo => ("/"@, ApiMethod::Get, ApiPayload::Empty),
        VmApiCall::FlushMetrics => ("/actions"@, ApiMethod::Put, ApiPayload::FlushMetrics),
        VmApiCall::GetBalloonDevice => ("/balloon"@, ApiMethod::Get, ApiPayload::Empty),
        VmApiCall::UpdateBalloonDevice => ("/balloon"@, ApiMethod::Patch, ApiPayload::Supplied),
        VmApiCall::GetBalloonStatistics => ("/balloon/statistics"@, ApiMethod::Get, ApiPayload::Empty),
        VmApiCall::UpdateBalloonStatistics => ("/balloon/statistics"@, ApiMethod::Patch, ApiPayload::Supplied),
        VmApiCall::UpdateDrive(id) => ("/drives/"@ + id@, ApiMethod::Patch, ApiPayload::Supplied),
        VmApiCall::UpdateNetworkInterface(id) => ("/network-interfaces/"@ + id@, ApiMethod::Patch, ApiPayload::Supplied),
        VmApiCall::GetMachineConfiguration => ("/machine-config"@, ApiMethod::Get, ApiPayload::Empty),
        VmApiCall::CreateSnapshot => ("/snapshot/create"@, ApiMethod::Put, ApiPayload::Supplied),
        VmApiCall::GetFirecrackerVersion => ("/version"@, ApiMethod::Get, ApiPayload::Empty),
        VmApiCall::GetEffectiveConfiguration => ("/vm/config"@, ApiMethod::Get, ApiPayload::Empty),
        VmApiCall::Pause => ("/vm"@, ApiMethod::Patch, ApiPayload::PauseState),
        VmApiCall::Resume => ("/vm"@, ApiMethod::Patch, ApiPayload::ResumeState),
        VmApiCall::CreateMmds => ("/mmds"@, ApiMethod::Put, ApiPayload::Supplied),
        VmApiCall::UpdateMmds => ("/mmds"@, ApiMethod::Patch, ApiPayload::Supplied),
        VmApiCall::GetMmds => ("/mmds"@, ApiMethod::Get, ApiPayload::Empty),
    }
}

impl VmApiCall {
    /// The request that this binding sends.
    pub fn request(&self) -> (r: ApiRequest)
        ensures
            r@ == call_request(*self),
    {
        let (route, method, payload) = match self {
            VmApiCall::GetInfo => ("/".to_owned(), ApiMethod::Get, ApiPayload::Empty),
            VmApiCall::FlushMetrics => ("/actions".to_owned(), ApiMethod::Put, ApiPayload::FlushMetrics),
            VmApiCall::GetBalloonDevice => ("/balloon".to_owned(), ApiMethod::Get, ApiPayload::Empty),
            VmApiCall::UpdateBalloonDevice => ("/balloon".to_owned(), ApiMethod::Patch, ApiPayload::Supplied),
            VmApiCall::GetBalloonStatistics => ("/balloon/statistics".to_owned(), ApiMethod::Get, ApiPayload::Empty),
            VmApiCall::UpdateBalloonStatistics => ("/balloon/statistics".to_owned(), ApiMethod::Patch, ApiPayload::Supplied),
            VmApiCall::UpdateDrive(id) => (route_with_id("/drives/", id), ApiMethod::Patch, ApiPayload::Supplied),
            VmApiCall::UpdateNetworkInterface(id) => (route_with_id("/network-interfaces/", id), ApiMethod::Patch, ApiPayload::Supplied),
            VmApiCall::GetMachineConfiguration => ("/machine-config".to_owned(), ApiMethod::Get, ApiPayload::Empty),
            VmApiCall::CreateSnapshot => ("/snapshot/create".to_owned(), ApiMethod::Put, ApiPayload::Supplied),
            VmApiCall::GetFirecrackerVersion => ("/version".to_owned(), ApiMethod::Get, ApiPayload::Empty),
            VmApiCall::GetEffectiveConfiguration => ("/vm/config".to_owned(), ApiMethod::Get, ApiPayload::Empty),
            VmApiCall::Pause => ("/vm".to_owned(), ApiMethod::Patch, ApiPayload::PauseState),
            VmApiCall::Resume => ("/vm".to_owned(), ApiMethod::Patch, ApiPayload::ResumeState),
            VmApiCall::CreateMmds => ("/mmds".to_owned(), ApiMethod::Put, ApiPayload::Supplied),
            VmApiCall::UpdateMmds => ("/mmds".to_owned(), ApiMethod::Patch, ApiPayload::Supplied),
            VmApiCall::GetMmds => ("/mmds".to_owned(), ApiMethod::Get, ApiPayload::Empty),
        };
        ApiRequest { route, method, payload }
    }
}

/// Whether an HTTP status code reports success (200 to 299).
pub open spec fn spec_is_success(status_code: u16) -> bool {
    200 <= status_code < 300
}

/// Whether an HTTP status code reports success (200 to 299).
pub fn is_success(status_code: u16) -> (r: bool)
    ensures
        r == spec_is_success(status_code),
{
    200 <= status_code && status_code < 300
}

/// Whether a text is empty once leading and trailing whitespace is trimmed, that is, whether all its
/// characters are whitespace.
pub open spec fn spec_is_blank(text: Seq<char>) -> bool {
    forall|i: int| 0 <= i < text.len() ==> #[trigger] is_whitespace(text[i])
}

/// Whether a text is empty once leading and trailing whitespace is trimmed.
pub fn is_blank(text: &str) -> (r: bool)
    ensures
        r == spec_is_blank(text@),
{
    let n = text.unicode_len();
    let mut i: usize = 0;
    while i < n
        invariant
            i <= n,
            n == text@.len(),
            forall|j: int| 0 <= j < i ==> #[trigger] is_whitespace(text@[j]),
        decreases n - i,
    {
        if !char_is_whitespace(text.get_char(i)) {
            return false;
        }
        i += 1;
    }
    true
}

/// The outcome of a request whose response is expected to carry no content: blank content
/// succeeds, any other content is refused along with the content.
pub fn expect_empty_response(body: String) -> (r: Result<(), VmError>)
    ensures
        spec_is_blank(body@) ==> r is Ok,
        !spec_is_blank(body@) ==> (r matches Err(VmError::ApiResponseExpectedEmpty(b)) && b@ == body@),
{
    if is_blank(body.as_str()) {
        Ok(())
    } else {
        Err(VmError::ApiResponseExpectedEmpty(body))
    }
}


/// How each binding reaches the Management API. Every binding that updates a part of the VM uses
/// PATCH on the route at which that part is read or created, and carries the value that the caller
/// supplies; every binding that only reads uses GET and carries nothing; creating a snapshot or the
/// MMDS data store uses PUT with the supplied value.
pub proof fn lemma_binding_methods(call: VmApiCall)
    ensures
        call is UpdateBalloonDevice || call is UpdateBalloonStatistics || call is UpdateDrive
            || call is UpdateNetworkInterface || call is UpdateMmds ==> call_request(call).1 == ApiMethod::Patch
            && call_request(call).2 == ApiPayload::Supplied,
        call is GetInfo || call is GetBalloonDevice || call is GetBalloonStatistics || call is GetMachineConfiguration
            || call is GetFirecrackerVersion || call is GetEffectiveConfiguration || call is GetMmds
            ==> call_request(call).1 == ApiMethod::Get && call_request(call).2 == ApiPayload::Empty,
        call is CreateSnapshot || call is CreateMmds ==> call_request(call).1 == ApiMethod::Put
            && call_request(call).2 == ApiPayload::Supplied,
        call_request(VmApiCall::UpdateBalloonDevice).0 == call_request(VmApiCall::GetBalloonDevice).0,
        call_request(VmApiCall::UpdateBalloonStatistics).0 == call_request(VmApiCall::GetBalloonStatistics).0,
        call_request(VmApiCall::UpdateMmds).0 == call_request(VmApiCall::CreateMmds).0,
        call_request(VmApiCall::UpdateMmds).0 == call_request(VmApiCall::GetMmds).0,
        call_request(VmApiCall::UpdateBalloonDevice) == ("/balloon"@, ApiMethod::Patch, ApiPayload::Supplied),
        call matches VmApiCall::UpdateDrive(id) ==> call_request(call) == ("/drives/"@ + id@, ApiMethod::Patch, ApiPayload::Supplied),
        call matches VmApiCall::UpdateNetworkInterface(id) ==> call_request(call)
            == ("/network-interfaces/"@ + id@, ApiMethod::Patch, ApiPayload::Supplied),
{
}


/// The route and body of every binding that is no update: reads go to the route of what they read,
/// the actions (flushing metrics) go to `/actions`, a pause and a resume both patch the VM's state
/// at `/vm` with opposite states, and a snapshot is created at `/snapshot/create`.
pub proof fn lemma_binding_routes()
    ensures
        call_request(VmApiCall::GetInfo) == ("/"@, ApiMethod::Get, ApiPayload::Empty),
        call_request(VmApiCall::FlushMetrics) == ("/actions"@, ApiMethod::Put, ApiPayload::FlushMetrics),
        call_request(VmApiCall::GetBalloonDevice) == ("/balloon"@, ApiMethod::Get, ApiPayload::Empty),
        call_request(VmApiCall::GetBalloonStatistics) == ("/balloon/statistics"@, ApiMethod::Get, ApiPayload::Empty),
        call_request(VmApiCall::UpdateBalloonStatistics) == ("/balloon/statistics"@, ApiMethod::Patch, ApiPayload::Supplied),
        call_request(VmApiCall::GetMachineConfiguration) == ("/machine-config"@, ApiMethod::Get, ApiPayload::Empty),
        call_request(VmApiCall::CreateSnapshot) == ("/snapshot/create"@, ApiMethod::Put, ApiPayload::Supplied),
        call_request(VmApiCall::GetFirecrackerVersion) == ("/version"@, ApiMethod::Get, ApiPayload::Empty),
        call_request(VmApiCall::GetEffectiveConfiguration) == ("/vm/config"@, ApiMethod::Get, ApiPayload::Empty),
        call_request(VmApiCall::Pause) == ("/vm"@, ApiMethod::Patch, ApiPayload::PauseState),
        call_request(VmApiCall::Resume) == ("/vm"@, ApiMethod::Patch, ApiPayload::ResumeState),
        call_request(VmApiCall::CreateMmds) == ("/mmds"@, ApiMethod::Put, ApiPayload::Supplied),
        call_request(VmApiCall::UpdateMmds) == ("/mmds"@, ApiMethod::Patch, ApiPayload::Supplied),
        call_request(VmApiCall::GetMmds) == ("/mmds"@, ApiMethod::Get, ApiPayload::Empty),
{
}

} // verus!
