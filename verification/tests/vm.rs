use std::time::Duration;

use fctools::process::{ExitStatus, VmmProcessError, VmmProcessState};
use fctools::vm::api::{init_new, init_restored_from_snapshot, is_blank, is_success, ApiMethod, ApiPayload, VmApiCall};
use fctools::vm::configuration::{InitMethod, VmConfiguration, VmConfigurationData};
use fctools::vm::models::{
    BootSource, Drive, LoadSnapshot, LoggerSystem, MachineConfiguration, MemoryBackend, MemoryBackendType,
    MemoryHotplugConfiguration, MetricsSystem, NetworkInterface, PmemDevice, VsockDevice,
};
use fctools::vm::paths::VmStandardPaths;
use fctools::vm::shutdown::{VmShutdownAction, VmShutdownMethod};
use fctools::vm::{Vm, VmError, VmState, VmStateCheckError};

fn drive(id: &str) -> Drive {
    Drive {
        drive_id: id.to_owned(),
        is_root_device: false,
        cache_type: None,
        partuuid: None,
        is_read_only: None,
        block: Some(format!("/{id}.ext4")),
        rate_limiter: None,
        io_engine: None,
        socket: None,
    }
}

fn iface(id: &str) -> NetworkInterface {
    NetworkInterface {
        iface_id: id.to_owned(),
        host_dev_name: "tap0".to_owned(),
        guest_mac: None,
        rx_rate_limiter: None,
        tx_rate_limiter: None,
    }
}

fn data() -> VmConfigurationData {
    VmConfigurationData {
        boot_source: BootSource { kernel_image: "/vmlinux".to_owned(), boot_args: None, initrd: None },
        drives: vec![drive("rootfs"), drive("data")],
        pmem_devices: vec![],
        machine_configuration: MachineConfiguration {
            vcpu_count: 2,
            mem_size_mib: 256,
            smt: None,
            track_dirty_pages: None,
            huge_pages: None,
        },
        cpu_template: None,
        network_interfaces: vec![iface("eth0")],
        balloon_device: None,
        vsock_device: Some(VsockDevice { guest_cid: 3, uds: "/v.sock".to_owned() }),
        logger_system: Some(LoggerSystem {
            logs: Some("/log".to_owned()),
            level: None,
            show_level: None,
            show_log_origin: None,
            module: None,
        }),
        metrics_system: None,
        memory_hotplug_configuration: None,
        mmds_configuration: None,
        entropy_device: None,
    }
}

fn routes(requests: &[fctools::vm::api::ApiRequest]) -> Vec<(String, ApiMethod, ApiPayload)> {
    requests.iter().map(|r| (r.route.clone(), r.method, r.payload)).collect()
}

fn new_vm(init_method: InitMethod) -> Vm {
    Vm::prepare(Some("/run/fc.sock".to_owned()), VmConfiguration::New { init_method, data: data() }).unwrap()
}

fn started_vm() -> Vm {
    let mut vm = new_vm(InitMethod::ViaApiCalls);
    vm.prepared();
    vm.start(None).unwrap();
    vm.invoked();
    vm
}

#[test]
fn init_new_sends_the_configuration_in_order() {
    let requests = init_new(&data());
    assert_eq!(
        routes(&requests),
        vec![
            ("/boot-source".to_owned(), ApiMethod::Put, ApiPayload::BootSource),
            ("/drives/rootfs".to_owned(), ApiMethod::Put, ApiPayload::Drive(0)),
            ("/drives/data".to_owned(), ApiMethod::Put, ApiPayload::Drive(1)),
            ("/machine-config".to_owned(), ApiMethod::Put, ApiPayload::MachineConfiguration),
            ("/network-interfaces/eth0".to_owned(), ApiMethod::Put, ApiPayload::NetworkInterface(0)),
            ("/vsock".to_owned(), ApiMethod::Put, ApiPayload::VsockDevice),
            ("/logger".to_owned(), ApiMethod::Put, ApiPayload::LoggerSystem),
            ("/actions".to_owned(), ApiMethod::Put, ApiPayload::InstanceStart),
        ]
    );
    assert_eq!(ApiMethod::Patch.as_str(), "PATCH");
}

#[test]
fn init_new_sends_pmem_devices_and_memory_hotplug_before_starting() {
    let mut d = data();
    d.drives = vec![drive("rootfs")];
    d.network_interfaces = vec![];
    d.vsock_device = None;
    d.logger_system = None;
    d.pmem_devices = vec![
        PmemDevice { id: "pm0".to_owned(), block: "/pm0.img".to_owned(), root_device: None, read_only: Some(true) },
        PmemDevice { id: "pm1".to_owned(), block: "/pm1.img".to_owned(), root_device: None, read_only: None },
    ];
    d.memory_hotplug_configuration =
        Some(MemoryHotplugConfiguration { total_size_mib: 1024, block_size_mib: None, slot_size_mib: None });
    assert_eq!(
        routes(&init_new(&d)),
        vec![
            ("/boot-source".to_owned(), ApiMethod::Put, ApiPayload::BootSource),
            ("/drives/rootfs".to_owned(), ApiMethod::Put, ApiPayload::Drive(0)),
            ("/pmem/pm0".to_owned(), ApiMethod::Put, ApiPayload::PmemDevice(0)),
            ("/pmem/pm1".to_owned(), ApiMethod::Put, ApiPayload::PmemDevice(1)),
            ("/machine-config".to_owned(), ApiMethod::Put, ApiPayload::MachineConfiguration),
            ("/hotplug/memory".to_owned(), ApiMethod::Put, ApiPayload::MemoryHotplugConfiguration),
            ("/actions".to_owned(), ApiMethod::Put, ApiPayload::InstanceStart),
        ]
    );
}

#[test]
fn init_restored_loads_the_snapshot_last() {
    let mut d = data();
    d.metrics_system = Some(MetricsSystem { metrics: "/metrics".to_owned() });
    assert_eq!(
        routes(&init_restored_from_snapshot(&d)),
        vec![
            ("/logger".to_owned(), ApiMethod::Put, ApiPayload::LoggerSystem),
            ("/metrics".to_owned(), ApiMethod::Put, ApiPayload::MetricsSystem),
            ("/snapshot/load".to_owned(), ApiMethod::Put, ApiPayload::LoadSnapshot),
        ]
    );
}

#[test]
fn prepare_refuses_a_disabled_socket() {
    let result = Vm::prepare(None, VmConfiguration::New { init_method: InitMethod::ViaApiCalls, data: data() });
    assert!(matches!(result, Err(VmError::DisabledApiSocketIsUnsupported)));
}

#[test]
fn start_plans_json_configuration_or_api_calls() {
    let mut vm = new_vm(InitMethod::ViaJsonConfiguration("/config.json".to_owned()));
    assert_eq!(vm.get_state(None), VmState::NotStarted);
    vm.prepared();
    let plan = vm.start(None).unwrap();
    assert_eq!(plan.configuration_path.as_deref(), Some("/config.json"));
    assert_eq!(plan.socket_path, "/run/fc.sock");
    assert!(plan.init_requests.is_empty());

    let mut vm = new_vm(InitMethod::ViaApiCalls);
    let plan = vm.start(None).unwrap();
    assert_eq!(plan.configuration_path, None);
    assert_eq!(plan.init_requests.len(), 8);

    let restored = VmConfiguration::RestoredFromSnapshot {
        load_snapshot: LoadSnapshot {
            track_dirty_pages: None,
            mem_backend: MemoryBackend { backend_type: MemoryBackendType::File, backend: "/mem".to_owned() },
            snapshot: "/snap".to_owned(),
            resume_vm: Some(true),
            network_overrides: vec![],
        },
        data: data(),
    };
    let mut vm = Vm::prepare(Some("/s".to_owned()), restored).unwrap();
    let plan = vm.start(None).unwrap();
    assert_eq!(plan.init_requests.last().unwrap().route, "/snapshot/load");
}

#[test]
fn start_is_refused_once_started() {
    let mut vm = started_vm();
    match vm.start(None) {
        Err(VmError::StateCheckError(VmStateCheckError::Other { expected, actual })) => {
            assert_eq!(expected, VmState::NotStarted);
            assert_eq!(actual, VmState::Running);
        }
        other => panic!("unexpected {other:?}"),
    }
}

#[test]
fn pause_and_resume_follow_the_state() {
    let mut vm = started_vm();
    assert_eq!(vm.get_state(None), VmState::Running);
    assert!(matches!(
        vm.api_call(&VmApiCall::Resume, None),
        Err(VmError::StateCheckError(VmStateCheckError::Other { expected: VmState::Paused, actual: VmState::Running }))
    ));
    let request = vm.api_call(&VmApiCall::Pause, None).unwrap();
    assert_eq!((request.route.as_str(), request.method, request.payload), ("/vm", ApiMethod::Patch, ApiPayload::PauseState));
    vm.api_call_completed(&VmApiCall::Pause);
    assert_eq!(vm.get_state(None), VmState::Paused);
    assert!(vm.api_call(&VmApiCall::CreateSnapshot, None).is_ok());
    assert!(vm.api_call(&VmApiCall::GetBalloonStatistics, None).is_err());
    vm.api_call(&VmApiCall::Resume, None).unwrap();
    vm.api_call_completed(&VmApiCall::Resume);
    assert_eq!(vm.get_state(None), VmState::Running);
    let update = vm.api_call(&VmApiCall::UpdateDrive("rootfs".to_owned()), None).unwrap();
    assert_eq!(update.route, "/drives/rootfs");
    assert_eq!(update.method, ApiMethod::Patch);
    vm.api_custom_request(None).unwrap();
    vm.api_custom_request_completed(Some(true));
    assert_eq!(vm.get_state(None), VmState::Paused);
}

#[test]
fn termination_decides_exited_or_crashed() {
    let mut vm = started_vm();
    assert!(matches!(
        vm.cleanup(None),
        Err(VmError::StateCheckError(VmStateCheckError::ExitedOrCrashed { actual: VmState::Running }))
    ));
    assert_eq!(vm.get_state(Some(ExitStatus::from_raw(256))), VmState::Crashed(ExitStatus::from_raw(256)));
    assert!(vm.cleanup(None).is_ok());
    assert!(matches!(
        vm.api_call(&VmApiCall::GetInfo, None),
        Err(VmError::StateCheckError(VmStateCheckError::PausedOrRunning { .. }))
    ));

    let mut vm = started_vm();
    vm.exited(ExitStatus::from_raw(0));
    assert_eq!(vm.get_state(None), VmState::Exited);
}

#[test]
fn pipes_are_taken_once() {
    let mut vm = started_vm();
    assert!(vm.take_pipes(None).is_ok());
    assert!(matches!(vm.take_pipes(None), Err(VmError::ProcessError(VmmProcessError::PipesAlreadyTaken))));
    let mut fresh = new_vm(InitMethod::ViaApiCalls);
    assert!(matches!(fresh.take_pipes(None), Err(VmError::StateCheckError(_))));
}

#[test]
fn process_checks_each_operation() {
    let mut process = fctools::process::VmmProcess::new(Some("/s".to_owned()));
    assert!(process.invoke(None).is_err());
    assert!(process.prepare(None).is_ok());
    process.prepared();
    assert!(process.invoke(None).is_ok());
    process.invoked();
    assert!(process.send_sigkill(None).is_ok());
    assert!(process.wait_for_exit(None).is_ok());
    assert!(process.cleanup(None).is_err());
    assert_eq!(process.state(Some(ExitStatus::from_raw(9))), VmmProcessState::Crashed(ExitStatus::from_raw(9)));
    assert!(process.cleanup(None).is_ok());
    assert_eq!(
        fctools::process::VmmProcess::ctrl_alt_del_outcome(400),
        Err(VmmProcessError::CtrlAltDelRequestFailed(400))
    );
    assert_eq!(fctools::process::VmmProcess::ctrl_alt_del_outcome(204), Ok(()));
}

#[test]
fn responses_are_judged() {
    assert!(is_success(200));
    assert!(is_success(299));
    assert!(!is_success(300));
    assert!(!is_success(404));
    assert!(is_blank(" \n\t"));
    assert!(is_blank(""));
    assert!(!is_blank(" {} "));
    assert!(is_blank("\u{3000}\u{a0}\u{2009}\u{85}\r"));
    assert!(!is_blank("\u{200b}"));
    assert!(!is_blank(" \u{feff} "));
}

#[test]
fn standard_paths_keep_the_last_socket_per_drive() {
    let mut paths = VmStandardPaths::new(
        vec![
            ("rootfs".to_owned(), "/a.sock".to_owned()),
            ("data".to_owned(), "/b.sock".to_owned()),
            ("rootfs".to_owned(), "/c.sock".to_owned()),
        ],
        Some("/metrics".to_owned()),
        None,
        None,
    );
    assert_eq!(paths.get_drive_socket("rootfs").map(String::as_str), Some("/c.sock"));
    assert_eq!(paths.get_drive_socket("data").map(String::as_str), Some("/b.sock"));
    assert_eq!(paths.get_drive_socket("none"), None);
    assert_eq!(paths.get_drive_sockets().len(), 2);
    assert_eq!(paths.get_metrics_path().map(String::as_str), Some("/metrics"));
    assert_eq!(paths.get_log_path(), None);
    paths.add_vsock_listener_path("/l1".to_owned());
    paths.add_vsock_listener_path("/l2".to_owned());
    assert_eq!(paths.get_vsock_listener_paths(), &vec!["/l1".to_owned(), "/l2".to_owned()]);
    assert_eq!(paths.clone().get_vsock_listener_paths().len(), 2);
}

#[test]
fn shutdown_actions_are_built() {
    let action = VmShutdownAction::new(VmShutdownMethod::SendCtrlAltDel);
    assert!(action.is_graceful());
    assert!(!action.is_attempt_revert());
    assert_eq!(action.get_timeout(), None);
    let action = action.graceful(false).timeout(Duration::from_secs(3)).attempt_revert(true);
    assert_eq!(action.get_method(), VmShutdownMethod::SendCtrlAltDel);
    assert!(!action.is_graceful());
    assert!(action.is_attempt_revert());
    assert_eq!(action.get_timeout(), Some(Duration::from_secs(3)));
}

#[test]
fn process_level_checks_go_through_the_vm() {
    let mut vm = new_vm(InitMethod::ViaApiCalls);
    assert!(matches!(vm.invoke(None), Err(VmError::ProcessError(VmmProcessError::ExpectedState { .. }))));
    vm.prepared();
    assert!(vm.invoke(None).is_ok());
    assert!(matches!(vm.send_sigkill(None), Err(VmError::ProcessError(_))));
    assert!(matches!(vm.send_ctrl_alt_del(None), Err(VmError::ProcessError(_))));
    vm.invoked();
    assert!(vm.send_sigkill(None).is_ok());
    assert!(vm.wait_for_exit(None).is_ok());
    let request = vm.send_ctrl_alt_del(None).unwrap();
    assert_eq!((request.route.as_str(), request.method, request.payload), ("/actions", ApiMethod::Put, ApiPayload::SendCtrlAltDel));
    assert_eq!(vm.get_socket_path().as_deref(), Some("/run/fc.sock"));
    assert!(matches!(vm.get_configuration(), VmConfiguration::New { init_method: InitMethod::ViaApiCalls, .. }));
}

#[test]
fn empty_responses_are_expected() {
    assert!(fctools::vm::api::expect_empty_response("  \n".to_owned()).is_ok());
    match fctools::vm::api::expect_empty_response("{\"a\":1}".to_owned()) {
        Err(VmError::ApiResponseExpectedEmpty(body)) => assert_eq!(body, "{\"a\":1}"),
        other => panic!("unexpected {other:?}"),
    }
}

#[test]
fn snapshot_results_restore_with_a_file_backend() {
    let result = fctools::vm::paths::VmSnapshotResult {
        snapshot_path: "/snap".to_owned(),
        mem_file_path: "/mem".to_owned(),
        configuration_data: data(),
    };
    match result.into_configuration(true) {
        VmConfiguration::RestoredFromSnapshot { load_snapshot, data: restored } => {
            assert_eq!(load_snapshot.snapshot, "/snap");
            assert_eq!(load_snapshot.mem_backend, MemoryBackend { backend_type: MemoryBackendType::File, backend: "/mem".to_owned() });
            assert_eq!(load_snapshot.resume_vm, Some(true));
            assert_eq!(restored, data());
        }
        other => panic!("unexpected {other:?}"),
    }
}

#[test]
fn a_terminated_process_stays_terminated() {
    let mut process = fctools::process::VmmProcess::new(None);
    process.prepared();
    process.invoked();
    assert_eq!(process.state(Some(ExitStatus::from_raw(0))), VmmProcessState::Exited);
    assert_eq!(process.state(None), VmmProcessState::Exited);
    assert_eq!(process.state(Some(ExitStatus::from_raw(0))), VmmProcessState::Exited);
    assert!(matches!(process.api_socket(None), Err(VmmProcessError::ExpectedState { .. })));
}

#[test]
fn vsock_listeners_follow_the_multiplexer() {
    let mut paths = VmStandardPaths::new(vec![], None, None, Some("/v.sock".to_owned()));
    assert_eq!(paths.register_vsock_listener(52).as_deref(), Some("/v.sock_52"));
    assert_eq!(paths.get_vsock_listener_paths(), &vec!["/v.sock_52".to_owned()]);
    let mut without = VmStandardPaths::new(vec![], None, None, None);
    assert_eq!(without.register_vsock_listener(52), None);
    assert!(without.get_vsock_listener_paths().is_empty());
}
