use fctools::executor::arguments::{
    ConfigurationFileOverride, JailerArguments, JailerCgroupVersion, VmmApiSocket, VmmArguments, VmmLogLevel,
};

fn assert_fc(expectations: &[&str], args: VmmArguments) {
    let joined_args = args.join(ConfigurationFileOverride::NoOverride).join(" ");
    for expectation in expectations {
        assert!(joined_args.contains(expectation));
    }
}

fn assert_jailer(expectations: &[&str], args: JailerArguments) {
    let joined_args = args.join("/tmp/fake/path").join(" ");
    for expectation in expectations {
        assert!(joined_args.contains(expectation));
    }
}

#[test]
fn firecracker_builds_correctly() {
    assert_fc(&["--no-api"], VmmArguments::new(VmmApiSocket::Disabled));
    assert_fc(
        &["--api-sock", "/tmp/socket.sock"],
        VmmArguments::new(VmmApiSocket::Enabled("/tmp/socket.sock".to_string())),
    );
    assert_fc(
        &["--no-api", "--level Info"],
        VmmArguments::new(VmmApiSocket::Disabled).log_level(VmmLogLevel::Info),
    );
    assert_fc(
        &["--no-api", "--log-path /tmp/t.fifo"],
        VmmArguments::new(VmmApiSocket::Disabled).log_path("/tmp/t.fifo"),
    );
    assert_fc(
        &["--no-api", "--show-log-origin"],
        VmmArguments::new(VmmApiSocket::Disabled).show_log_origin(),
    );
    assert_fc(
        &["--no-api", "--module mod"],
        VmmArguments::new(VmmApiSocket::Disabled).log_module("mod"),
    );
    assert_fc(
        &["--no-api", "--show-level"],
        VmmArguments::new(VmmApiSocket::Disabled).show_log_level(),
    );
    assert_fc(
        &["--no-api", "--boot-timer"],
        VmmArguments::new(VmmApiSocket::Disabled).enable_boot_timer(),
    );
    assert_fc(
        &["--no-api", "--http-api-max-payload-size 32"],
        VmmArguments::new(VmmApiSocket::Disabled).api_max_payload_bytes(32),
    );
    assert_fc(
        &["--no-api", "--metadata /tmp/metadata"],
        VmmArguments::new(VmmApiSocket::Disabled).metadata_path("/tmp/metadata"),
    );
    assert_fc(
        &["--no-api", "--metrics-path /tmp/m.path"],
        VmmArguments::new(VmmApiSocket::Disabled).metrics_path("/tmp/m.path"),
    );
    assert_fc(
        &["--no-api", "--mmds-size-limit 128"],
        VmmArguments::new(VmmApiSocket::Disabled).mmds_size_limit(128),
    );
    assert_fc(
        &["--no-api", "--no-seccomp"],
        VmmArguments::new(VmmApiSocket::Disabled).disable_seccomp(),
    );
    assert_fc(
        &["--no-api", "--seccomp-filter /tmp/seccomp.filter"],
        VmmArguments::new(VmmApiSocket::Disabled).seccomp_path("/tmp/seccomp.filter"),
    );
}

#[test]
fn jailer_builds_correctly() {
    let baseline = JailerArguments::new(1000, 1000, &1000.to_string());

    assert_jailer(
        &["--cgroup a=b", "--cgroup c=d"],
        baseline.clone().cgroup("a", "b").cgroup("c", "d"),
    );
    assert_jailer(
        &["--cgroup-version 1"],
        baseline.clone().cgroup_version(JailerCgroupVersion::V1),
    );
    assert_jailer(
        &["--cgroup-version 2"],
        baseline.clone().cgroup_version(JailerCgroupVersion::V2),
    );
    assert_jailer(
        &["--chroot-base-dir /tmp/chroot/dir"],
        baseline.clone().chroot_base_dir("/tmp/chroot/dir"),
    );
    assert_jailer(&["--daemonize"], baseline.clone().daemonize());
    assert_jailer(
        &["--netns /var/run/netns/testing"],
        baseline.clone().network_namespace_path("/var/run/netns/testing"),
    );
    assert_jailer(&["--new-pid-ns"], baseline.clone().exec_in_new_pid_ns());
    assert_jailer(&["--parent-cgroup cgroup"], baseline.clone().parent_cgroup("cgroup"));
    assert_jailer(
        &["--resource-limit a=b", "--resource-limit c=d"],
        baseline.clone().resource_limit("a", "b").resource_limit("c", "d"),
    );
}

#[test]
fn firecracker_arguments_come_in_documented_order() {
    let args = VmmArguments::new(VmmApiSocket::Enabled("/run/fc.sock".to_string()))
        .config_path("/etc/fc.json")
        .log_level(VmmLogLevel::Warn)
        .api_max_payload_bytes(4096)
        .disable_seccomp();
    assert_eq!(
        args.join(ConfigurationFileOverride::NoOverride),
        vec!["--api-sock", "/run/fc.sock", "--config-file", "/etc/fc.json", "--level", "Warn",
            "--http-api-max-payload-size", "4096", "--no-seccomp"]
    );
    assert_eq!(
        args.join(ConfigurationFileOverride::Disable),
        vec!["--api-sock", "/run/fc.sock", "--level", "Warn", "--http-api-max-payload-size", "4096", "--no-seccomp"]
    );
    assert_eq!(
        args.join(ConfigurationFileOverride::Enable("/tmp/other.json".to_string())),
        vec!["--api-sock", "/run/fc.sock", "--config-file", "/tmp/other.json", "--level", "Warn",
            "--http-api-max-payload-size", "4096", "--no-seccomp"]
    );
}

#[test]
fn jailer_arguments_start_with_identity() {
    let args = JailerArguments::new(0, 4294967295, "vm-1")
        .cgroup("cpu.max", "1")
        .cgroup("mem", "2")
        .cgroup("cpu.max", "3");
    assert_eq!(
        args.join("/usr/bin/firecracker"),
        vec!["--exec-file", "/usr/bin/firecracker", "--uid", "0", "--gid", "4294967295", "--id", "vm-1",
            "--cgroup", "cpu.max=3", "--cgroup", "mem=2"]
    );
}

#[test]
fn jailer_cgroups_and_limits_in_bulk() {
    let args = JailerArguments::new(7, 8, "jail")
        .cgroups(vec![("a".to_string(), "1".to_string()), ("b".to_string(), "2".to_string()), ("a".to_string(), "3".to_string())])
        .resource_limits(vec![("fsize".to_string(), "10".to_string())]);
    assert_eq!(
        args.join("fc"),
        vec!["--exec-file", "fc", "--uid", "7", "--gid", "8", "--id", "jail", "--cgroup", "a=3", "--cgroup", "b=2",
            "--resource-limit", "fsize=10"]
    );
}

#[test]
fn log_levels_render_as_firecracker_expects() {
    assert_eq!(VmmLogLevel::Off.to_string(), "Off");
    assert_eq!(VmmLogLevel::Trace.to_string(), "Trace");
    assert_eq!(VmmLogLevel::Debug.to_string(), "Debug");
    assert_eq!(VmmLogLevel::Info.to_string(), "Info");
    assert_eq!(VmmLogLevel::Warn.to_string(), "Warn");
    assert_eq!(VmmLogLevel::Error.to_string(), "Error");
}

#[test]
fn arguments_compare_by_value() {
    let vmm = VmmArguments::new(VmmApiSocket::Enabled("/a.sock".to_owned())).log_level(VmmLogLevel::Info);
    assert_eq!(vmm.clone(), vmm);
    assert_ne!(vmm, VmmArguments::new(VmmApiSocket::Enabled("/a.sock".to_owned())));
    assert!(VmmArguments::new(VmmApiSocket::Disabled) < VmmArguments::new(VmmApiSocket::Enabled("/a".to_owned())));

    let one = JailerArguments::new(1, 2, "jail").cgroup("cpu.max", "1").cgroup("memory.max", "2");
    let other = JailerArguments::new(1, 2, "jail").cgroup("memory.max", "2").cgroup("cpu.max", "1");
    assert_eq!(one, other);
    assert_eq!(one.clone(), one);
    assert_ne!(one, JailerArguments::new(1, 2, "jail").cgroup("cpu.max", "3").cgroup("memory.max", "2"));
    assert_ne!(JailerArguments::new(1, 2, "jail"), JailerArguments::new(1, 2, "jail").daemonize());
    assert_ne!(JailerArguments::new(1, 2, "jail"), JailerArguments::new(1, 3, "jail"));
}
