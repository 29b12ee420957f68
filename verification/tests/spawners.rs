use fctools::executor::{force_chown, force_chown_outcome, force_mkdir, make_chown_command, ForcedMkdir};
use fctools::process::ExitStatus;
use fctools::process_spawner::{DirectProcessSpawner, ProcessSpawner, SudoProcessSpawner, SuProcessSpawner};
use fctools::runner::{DirectRunner, Runner, SudoRunner, SuRunner};
use fctools::shell_spawner::{SameUserShellSpawner, ShellSpawner, SudoShellSpawner, SuShellSpawner};
use fctools::text::split_spaces_vec;

fn path_text(path: std::path::PathBuf) -> String {
    path.to_string_lossy().into_owned()
}

/// The installed sudo, or its usual location where sudo is not installed.
fn sudo_path() -> std::path::PathBuf {
    which::which("sudo").unwrap_or_else(|_| std::path::PathBuf::from("/usr/bin/sudo"))
}

#[test]
fn shell_spawner_shell_spawners_have_correct_increases_privileges_flags() {
    assert!(!SameUserShellSpawner::new(&path_text(which::which("sh").unwrap())).increases_privileges());
    assert!(SuShellSpawner::new("password").increases_privileges());
    assert!(SudoShellSpawner { sudo_path: path_text(sudo_path()), password: None }.increases_privileges());
}

#[test]
fn runner_shell_spawners_have_correct_increases_privileges_flags() {
    assert!(!DirectRunner.increases_privileges());
    assert!(SuRunner::new("password").increases_privileges());
    assert!(SudoRunner { sudo_path: path_text(sudo_path()), password: None }.increases_privileges());
}

#[test]
fn same_user_shell_runs_the_command_with_c() {
    let plan = SameUserShellSpawner::default().spawn("echo hi".to_owned(), true);
    assert_eq!(plan.program, "/usr/bin/sh");
    assert_eq!(plan.arguments, vec!["-c".to_owned(), "echo hi".to_owned()]);
    assert!(!plan.stdin_piped && !plan.stdout_piped && !plan.stderr_piped);
    assert!(plan.stdin_writes.is_empty());
}

#[test]
fn su_shell_writes_password_then_command() {
    let plan = SuShellSpawner::new("secret").su_path("/bin/su").spawn("ls -la".to_owned(), false);
    assert_eq!(plan.program, "/bin/su");
    assert!(plan.arguments.is_empty());
    assert!(plan.stdin_piped && plan.stdout_piped && plan.stderr_piped);
    assert_eq!(plan.stdin_writes, vec!["secret\n".to_owned(), "ls -la ; exit\n".to_owned()]);
}

#[test]
fn sudo_shell_splits_the_command_on_spaces() {
    let spawner = SudoShellSpawner { sudo_path: "/usr/bin/sudo".to_owned(), password: Some("pw".to_owned()) };
    let plan = spawner.spawn("chown  -R 1:1 /x".to_owned(), true);
    assert_eq!(plan.arguments, vec!["-S", "-s", "chown", "", "-R", "1:1", "/x"]);
    assert_eq!(plan.stdin_writes, vec!["pw\n".to_owned()]);
    assert!(plan.stdin_piped && !plan.stdout_piped);
    let without = SudoShellSpawner { sudo_path: "/usr/bin/sudo".to_owned(), password: None };
    let plan = without.spawn("true".to_owned(), false);
    assert_eq!(plan.arguments, vec!["-S", "-s", "true"]);
    assert!(plan.stdin_piped && !plan.close_stdin);
    assert!(plan.stdin_writes.is_empty());
}

#[test]
fn splitting_on_spaces_keeps_empty_pieces() {
    assert_eq!(split_spaces_vec(""), vec![""]);
    assert_eq!(split_spaces_vec("a b"), vec!["a", "b"]);
    assert_eq!(split_spaces_vec(" a  "), vec!["", "a", "", ""]);
    assert_eq!(split_spaces_vec(" a  ").join(" "), " a  ");
}

#[test]
fn runners_build_their_invocations() {
    let plan = DirectRunner.spawn("/bin/fc", vec!["--a".to_owned()], false);
    assert_eq!((plan.program.as_str(), plan.arguments.len()), ("/bin/fc", 1));
    assert!(plan.stdin_piped);
    let plan = SuRunner::new("pw").spawn("/bin/fc", vec!["--a".to_owned(), "b".to_owned()], false);
    assert_eq!(plan.program, "/usr/bin/su");
    assert_eq!(plan.stdin_writes, vec!["pw\n".to_owned(), "\"/bin/fc\" --a b ; exit\n".to_owned()]);
    let plan = SudoRunner { sudo_path: "/s".to_owned(), password: None }.spawn("/bin/fc", vec!["x".to_owned()], false);
    assert_eq!((plan.program.as_str(), plan.arguments.clone()), ("/s", vec!["-S".to_owned(), "-s".to_owned(), "/bin/fc".to_owned(), "x".to_owned()]));
    assert!(plan.stdin_piped && plan.stdout_piped && plan.stderr_piped && !plan.close_stdin);
    assert!(plan.stdin_writes.is_empty());
    let plan = SudoRunner { sudo_path: "/s".to_owned(), password: Some("pw".to_owned()) }.spawn("/bin/fc", vec![], true);
    assert_eq!(plan.arguments, vec!["-S", "-s", "/bin/fc"]);
    assert_eq!(plan.stdin_writes, vec!["pw\n".to_owned()]);
    assert!(!plan.stdout_piped && !plan.stderr_piped);
}

#[test]
fn process_spawners_build_their_invocations() {
    let plan = DirectProcessSpawner.spawn("/bin/fc", vec!["--a".to_owned()], true);
    assert!(!plan.stdin_piped && !plan.stdout_piped);
    let plan = SuProcessSpawner::new("pw".to_owned(), None).spawn("/bin/fc", vec![], true);
    assert_eq!(plan.program, "su");
    assert_eq!(plan.stdin_writes, vec!["pw\n".to_owned(), "\"/bin/fc\"  ; exit\n".to_owned()]);
    assert!(plan.stdin_piped && plan.close_stdin);
    let plan = SudoProcessSpawner::default().spawn("/bin/fc", vec!["--b".to_owned()], false);
    assert_eq!(plan.program, "sudo");
    assert_eq!(plan.arguments, vec!["-S", "-s", "/bin/fc", "--b"]);
    assert!(plan.stdin_writes.is_empty());
    assert!(!plan.close_stdin);
    let plan = SudoProcessSpawner::new(Some("pw".to_owned()), Some("/opt/sudo".to_owned())).spawn("/x", vec![], false);
    assert_eq!(plan.program, "/opt/sudo");
    assert_eq!(plan.stdin_writes, vec!["pw\n".to_owned()]);
}

#[test]
fn forced_chown_and_mkdir_depend_on_privileges() {
    assert!(force_chown("/p", &SameUserShellSpawner::default()).is_none());
    let plan = force_chown("/p", &SuShellSpawner::new("pw")).unwrap();
    assert!(plan.stdin_writes[1].starts_with("chown -f -R "));
    assert!(plan.stdin_writes[1].ends_with(" /p ; exit\n"));
    assert_eq!(make_chown_command(1000, 100, "/tmp/x"), "chown -f -R 1000:100 /tmp/x");
    match force_mkdir("/d", &SameUserShellSpawner::default()) {
        ForcedMkdir::CreateDirAll(p) => assert_eq!(p, "/d"),
        other => panic!("unexpected {other:?}"),
    }
    match force_mkdir("/d", &SuShellSpawner::new("pw")) {
        ForcedMkdir::Spawn(plan) => assert_eq!(plan.stdin_writes[1], "mkdir -p /d ; exit\n"),
        other => panic!("unexpected {other:?}"),
    }
    assert!(force_chown_outcome(ExitStatus::from_raw(0)).is_ok());
    assert!(force_chown_outcome(ExitStatus::from_raw(256)).is_err());
}
