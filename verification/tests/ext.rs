use fctools::executor::installation::{check_version_output, contains_text, VmmInstallation, VmmInstallationError};
use fctools::ext::fcnet::{fcnet_outcome, FcnetConfiguration, FcnetError, FcnetNetnsOptions, ProcessOutput};
use fctools::ext::metrics::{
    ApiServerMetrics, BalloonMetrics, InMemoryMetricsBuffer, MetricsBuffer, MetricsEntry,
};
use fctools::ext::nat_network::{NatNetwork, NatNetworkError};
use fctools::ext::snapshot_editor::{SnapshotEditor, SnapshotEditorError, SnapshotEditorExt};
use fctools::net::{Ipv4Addr, Ipv4Inet};
use fctools::process::ExitStatus;
use fctools::shell_spawner::SameUserShellSpawner;

fn inet(a: u8, b: u8, c: u8, d: u8, len: u8) -> Ipv4Inet {
    Ipv4Inet::new(Ipv4Addr::new(a, b, c, d), len).unwrap()
}

#[test]
fn inets_render_like_cidr() {
    assert_eq!(inet(172, 16, 0, 1, 24).to_string(), "172.16.0.1/24");
    assert_eq!(inet(10, 0, 0, 2, 32).to_string(), "10.0.0.2");
    assert_eq!(Ipv4Addr::new(255, 0, 9, 100).to_string(), "255.0.9.100");
    assert_eq!(inet(10, 0, 0, 2, 24).mask(), Ipv4Addr::new(255, 255, 255, 0));
    assert_eq!(inet(10, 0, 0, 2, 0).mask(), Ipv4Addr::new(0, 0, 0, 0));
    assert_eq!(inet(10, 0, 0, 2, 17).mask(), Ipv4Addr::new(255, 255, 128, 0));
    assert_eq!(inet(10, 0, 0, 2, 32).mask(), Ipv4Addr::new(255, 255, 255, 255));
}

#[test]
fn fcnet_simple_arguments() {
    let config = FcnetConfiguration::simple().iface_name("eth0").tap_ip(inet(172, 16, 0, 1, 24));
    assert_eq!(config.arguments("--add"), "--add --iface eth0 --tap-ip 172.16.0.1/24 simple");
    assert_eq!(config.exec("--check", "/usr/bin/fcnet"), "/usr/bin/fcnet --check --iface eth0 --tap-ip 172.16.0.1/24 simple");
    assert_eq!(config.add("/f"), "/f --add --iface eth0 --tap-ip 172.16.0.1/24 simple");
    assert_eq!(config.delete("/f"), "/f --del --iface eth0 --tap-ip 172.16.0.1/24 simple");
    assert_eq!(config.check("/f"), "/f --check --iface eth0 --tap-ip 172.16.0.1/24 simple");
    assert_eq!(config.get_guest_routing_command(), "ip route add default via 172.16.0.1");
    assert_eq!(
        config.get_guest_ip_boot_arg(&inet(172, 16, 0, 2, 24), "eth0"),
        "ip=172.16.0.2::172.16.0.1:255.255.255.0::eth0:off"
    );
    assert_eq!(FcnetConfiguration::simple().get_guest_routing_command(), "ip route add default via 172.16.0.1");
}

#[test]
fn fcnet_netns_arguments() {
    let options = FcnetNetnsOptions::new()
        .netns_name("ns")
        .veth1_name("v1")
        .veth2_ip(inet(10, 0, 0, 2, 30))
        .guest_ip(Ipv4Addr::new(172, 16, 0, 2))
        .forwarded_guest_ip(Ipv4Addr::new(192, 168, 0, 3));
    let config = FcnetConfiguration::netns(options).iptables_path("/sbin/iptables").tap_name("");
    assert_eq!(
        config.arguments("--add"),
        "--add --iptables-path /sbin/iptables tap netns --netns ns --veth1 v1 --veth2-ip 10.0.0.2/30 --guest-ip 172.16.0.2 --forwarded-guest-ip 192.168.0.3"
    );
}

#[test]
fn fcnet_outcome_follows_the_exit_status() {
    let ok = ProcessOutput { status: ExitStatus::from_raw(0), stdout: vec![], stderr: vec![] };
    assert!(fcnet_outcome(ok).is_ok());
    let failed = ProcessOutput { status: ExitStatus::from_raw(256), stdout: b"out".to_vec(), stderr: vec![] };
    match fcnet_outcome(failed.clone()) {
        Err(FcnetError::FcnetReturnedError(output)) => assert_eq!(output, failed),
        other => panic!("unexpected {other:?}"),
    }
}

#[test]
fn nat_network_commands() {
    let network = NatNetwork {
        tap_name: "tap0".to_owned(),
        host_ip: inet(172, 16, 0, 1, 24),
        host_iface: "eth0".to_owned(),
        guest_ip: inet(172, 16, 0, 2, 24),
        shell_spawner: SameUserShellSpawner::default(),
    };
    let create = network.create_command_list();
    assert_eq!(create[0], "ip tuntap add tap0 mode tap");
    assert_eq!(create[1], "ip addr add 172.16.0.1/24 dev tap0");
    assert_eq!(create[6], "iptables -A FORWARD -i tap0 -o eth0 -j ACCEPT");
    let plans = network.create();
    assert_eq!(plans.len(), 7);
    assert_eq!(plans[3].arguments, vec!["-c", "echo 1 > /proc/sys/net/ipv4/ip_forward"]);
    let delete = network.delete_command_list();
    assert_eq!(delete, vec![
        "ip link del tap0",
        "iptables -t nat -D POSTROUTING -o eth0 -j MASQUERADE",
        "iptables -D FORWARD -m conntrack --ctstate RELATED,ESTABLISHED -j ACCEPT",
        "iptables -D FORWARD -i tap0 -o eth0 -j ACCEPT",
    ]);
    assert_eq!(network.delete().len(), 4);
    let mut boot_args = "console=ttyS0".to_owned();
    network.append_ip_boot_arg(&mut boot_args);
    assert_eq!(boot_args, "console=ttyS0 ip=172.16.0.2::172.16.0.1:255.255.255.0::eth0:off");
    let interface = network.get_vm_network_interface();
    assert_eq!((interface.iface_id.as_str(), interface.host_dev_name.as_str()), ("eth0", "tap0"));
    assert!(matches!(
        NatNetwork::<SameUserShellSpawner>::exec_outcome(ExitStatus::from_raw(1)),
        Err(NatNetworkError::NonzeroStatus(_))
    ));
}

#[test]
fn snapshot_editor_invocations() {
    let installation = VmmInstallation {
        firecracker_path: "/fc".to_owned(),
        jailer_path: "/jailer".to_owned(),
        snapshot_editor_path: "/se".to_owned(),
    };
    let editor = installation.snapshot_editor();
    let plan = editor.rebase_memory("/base", "/diff");
    assert_eq!(plan.program, "/se");
    assert_eq!(plan.arguments, vec!["edit-memory", "rebase", "--memory-path", "/base", "--diff-path", "/diff"]);
    assert!(!plan.stdin_piped && plan.stdout_piped && plan.stderr_piped);
    assert_eq!(editor.get_snapshot_version("/s").arguments, vec!["info-vmstate", "version", "--vmstate-path", "/s"]);
    assert_eq!(editor.get_snapshot_vcpu_states("/s").arguments[1], "vcpu-states");
    assert_eq!(editor.get_snapshot_vm_state("/s").arguments[1], "vm-state");
    assert!(SnapshotEditor::run_outcome(ExitStatus::from_raw(0)).is_ok());
    assert!(matches!(
        SnapshotEditor::run_outcome(ExitStatus::from_raw(256)),
        Err(SnapshotEditorError::ExitedWithNonZeroStatus(_))
    ));
}

#[test]
fn installation_version_output_is_checked() {
    assert!(check_version_output("Firecracker v1.13.1\n", "Firecracker", "v1.13.1").is_ok());
    assert!(matches!(
        check_version_output("Jailer v1.13.1", "Firecracker", "v1.13.1"),
        Err(VmmInstallationError::BinaryIsOfIncorrectType)
    ));
    assert!(matches!(
        check_version_output("Firecracker v1.12.0", "Firecracker", "v1.13.1"),
        Err(VmmInstallationError::BinaryDoesNotMatchExpectedVersion)
    ));
    assert!(contains_text("abc", ""));
    assert!(contains_text("abc", "bc"));
    assert!(!contains_text("abc", "cb"));
    let installation = VmmInstallation {
        firecracker_path: "/fc".to_owned(),
        jailer_path: "/jailer".to_owned(),
        snapshot_editor_path: "/se".to_owned(),
    };
    let targets = installation.verification_targets();
    assert_eq!(targets[0], ("/fc".to_owned(), "Firecracker".to_owned()));
    assert_eq!(targets[2], ("/se".to_owned(), "snapshot-editor".to_owned()));
}

#[test]
fn in_memory_buffer_keeps_entries_in_order() {
    let entry = |t| MetricsEntry {
        utc_timestamp_ms: t,
        api_server: ApiServerMetrics {
            process_startup_time_us: 1,
            process_startup_time_cpu_us: 2,
            sync_response_fails: 0,
            sync_vmm_send_timeout_count: 0,
        },
        balloon: BalloonMetrics {
            activate_fails: 0,
            inflate_count: 0,
            stats_updates_count: 0,
            stats_update_fails: 0,
            deflate_count: 0,
            event_fails: 0,
        },
    };
    let mut buffer = InMemoryMetricsBuffer::with_capacity(2);
    assert!(buffer.entries().is_empty());
    buffer.recv_metrics(entry(1));
    buffer.recv_metrics(entry(2));
    assert_eq!(buffer.entries().iter().map(|e| e.utc_timestamp_ms).collect::<Vec<_>>(), vec![1, 2]);
    assert!(InMemoryMetricsBuffer::new().entries().is_empty());
}
