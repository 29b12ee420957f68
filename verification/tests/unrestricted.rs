use fctools::executor::argument_modifier::{ArgumentModifier, NetnsArgumentModifier};
use fctools::executor::arguments::{ConfigurationFileOverride, VmmApiSocket, VmmArguments};
use fctools::executor::unrestricted::{CleanupStep, PrepareStep, UnrestrictedVmmExecutor, VmmId, VmmIdParseError};

#[test]
fn vmm_id_rejects_when_too_short() {
    for l in 0..5 {
        let str = (0..l).map(|_| "l").collect::<String>();
        assert_eq!(VmmId::new(&str), Err(VmmIdParseError::TooShort));
    }
}

#[test]
fn vmm_id_rejects_when_too_long() {
    for l in 61..100 {
        let str = (0..l).map(|_| "L").collect::<String>();
        assert_eq!(VmmId::new(&str), Err(VmmIdParseError::TooLong));
    }
}

#[test]
fn vmm_id_rejects_when_invalid_character() {
    for c in ['~', '_', '$', '#', '+'] {
        let str = (0..10).map(|_| c).collect::<String>();
        assert_eq!(VmmId::new(&str), Err(VmmIdParseError::ContainsInvalidCharacter));
    }
}

#[test]
fn vmm_id_accepts_valid() {
    for str in ["vmm-id", "longer-id", "L1Nda74-", "very-loNg-ID"] {
        VmmId::new(str).unwrap();
    }
}

#[test]
fn vmm_id_length_is_counted_in_bytes() {
    // Four characters, but eight bytes: long enough, yet not ASCII.
    assert_eq!(VmmId::new("éééé"), Err(VmmIdParseError::ContainsInvalidCharacter));
    assert_eq!(VmmId::new("abcde").unwrap().as_str(), "abcde");
    assert_eq!(VmmId::new(&"a".repeat(60)).unwrap().into_string(), "a".repeat(60));
}

#[test]
fn unrestricted_executor_plans_its_environment() {
    let args = VmmArguments::new(VmmApiSocket::Enabled("/tmp/api.sock".to_string()))
        .log_path("/tmp/log")
        .metrics_path("/tmp/metrics");
    let executor = UnrestrictedVmmExecutor::new(args).remove_logs_on_cleanup();
    let outer = vec!["/tmp/kernel".to_string(), "/tmp/rootfs".to_string()];
    assert_eq!(
        executor.prepare_steps(&outer),
        vec![
            PrepareStep::RequireAndChown("/tmp/kernel".to_string()),
            PrepareStep::RequireAndChown("/tmp/rootfs".to_string()),
            PrepareStep::RemoveStaleSocket("/tmp/api.sock".to_string()),
            PrepareStep::CreateFileWithTree("/tmp/log".to_string()),
            PrepareStep::CreateFileWithTree("/tmp/metrics".to_string()),
        ]
    );
    assert_eq!(
        executor.cleanup_steps(),
        vec![
            CleanupStep::RemoveSocket("/tmp/api.sock".to_string()),
            CleanupStep::RemoveFile("/tmp/log".to_string()),
        ]
    );
    assert_eq!(
        executor.path_mappings(&outer),
        vec![
            ("/tmp/kernel".to_string(), "/tmp/kernel".to_string()),
            ("/tmp/rootfs".to_string(), "/tmp/rootfs".to_string()),
        ]
    );
    assert_eq!(executor.get_socket_path(), Some("/tmp/api.sock".to_string()));
    assert_eq!(executor.inner_to_outer_path("/x/y"), "/x/y");
    assert!(!executor.traceless());
}

#[test]
fn unrestricted_executor_invocation_arguments() {
    let modifier: Box<dyn ArgumentModifier> = Box::new(NetnsArgumentModifier::new("ns"));
    let executor = UnrestrictedVmmExecutor::new(VmmArguments::new(VmmApiSocket::Disabled).enable_boot_timer())
        .argument_modifier(modifier)
        .id(VmmId::new("vm-0001").unwrap())
        .pipes_to_null();
    assert!(executor.get_pipes_to_null());
    assert_eq!(
        executor.invocation_arguments(ConfigurationFileOverride::Enable("/c.json".to_string())),
        vec!["/usr/sbin/ip", "netns", "exec", "ns", "--no-api", "--config-file", "/c.json", "--boot-timer", "--id", "vm-0001"]
    );
    let plain = UnrestrictedVmmExecutor::new(VmmArguments::new(VmmApiSocket::Disabled));
    assert!(plain.prepare_steps(&Vec::new()).is_empty());
    assert!(plain.cleanup_steps().is_empty());
    assert_eq!(plain.get_socket_path(), None);
}

#[test]
fn unrestricted_executor_invokes_firecracker_through_the_runner() {
    let executor = UnrestrictedVmmExecutor::new(VmmArguments::new(VmmApiSocket::Enabled("/a.sock".to_string())))
        .pipes_to_null();
    let installation = fctools::executor::installation::VmmInstallation {
        firecracker_path: "/bin/firecracker".to_string(),
        jailer_path: "/bin/jailer".to_string(),
        snapshot_editor_path: "/bin/snapshot-editor".to_string(),
    };
    let plan = executor.invoke(&installation, &fctools::runner::DirectRunner, ConfigurationFileOverride::NoOverride);
    assert_eq!(plan.program, "/bin/firecracker");
    assert_eq!(plan.arguments, vec!["--api-sock", "/a.sock"]);
    assert!(!plan.stdin_piped && !plan.stdout_piped && !plan.stderr_piped);
}
