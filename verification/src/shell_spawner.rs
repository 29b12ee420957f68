//! Spawning a shell, as the same user or with privileges elevated through "su" or "sudo", and
//! handing it a command: what that takes is a [SpawnPlan], carried out by the caller.

use vstd::prelude::*;

use crate::process_spawner::{
    SpawnPlan, SpawnPlanView, make_password_line, password_line, password_writes, prepend_two, su_plan, sudo_plan,
};
use crate::text::{split_spaces, split_spaces_vec};

verus! {

/// Something that spawns a shell and enters a command in it, the shell exiting as soon as the
/// command completes.
pub trait ShellSpawner {
    /// Whether the spawned processes get other privileges than those of the current process.
    spec fn spec_increases_privileges(&self) -> bool;

    /// What spawning a shell for `shell_command` takes.
    spec fn spec_spawn(&self, shell_command: Seq<char>, pipes_to_null: bool) -> SpawnPlanView;

    /// Whether the spawned processes get other privileges than those of the current process.
    fn increases_privileges(&self) -> (r: bool)
        ensures
            r == self.spec_increases_privileges(),
    ;

    /// What spawning a shell for `shell_command` takes.
    fn spawn(&self, shell_command: String, pipes_to_null: bool) -> (r: SpawnPlan)
        ensures
            r@ == self.spec_spawn(shell_command@, pipes_to_null),
    ;
}

/// A shell spawner that launches the given shell as the current user, without escalating
/// privileges.
#[derive(Debug, Clone, PartialEq, Eq)]
pub struct SameUserShellSpawner {
    shell_path: String,
}

impl SameUserShellSpawner {
    /// The path of the shell.
    pub closed spec fn spec_shell_path(self) -> Seq<char> {
        self.shell_path@
    }

    /// A spawner of the shell at the given path.
    pub fn new(shell_path: &str) -> (r: Self)
        ensures
            r.spec_shell_path() == shell_path@,
    {
        SameUserShellSpawner { shell_path: shell_path.to_owned() }
    }
}

impl Default for SameUserShellSpawner {
    /// A spawner of /usr/bin/sh.
    fn default() -> (r: Self)
        ensures
            r.spec_shell_path() == "/usr/bin/sh"@,
    {
        SameUserShellSpawner { shell_path: "/usr/bin/sh".to_owned() }
    }
}

impl ShellSpawner for SameUserShellSpawner {
    open spec fn spec_increases_privileges(&self) -> bool {
        false
    }

    /// Run the shell with `-c` and the command, its streams piped unless they go to the null device.
    open spec fn spec_spawn(&self, shell_command: Seq<char>, pipes_to_null: bool) -> SpawnPlanView {
        SpawnPlanView {
            program: self.spec_shell_path(),
            arguments: seq!["-c"@, shell_command],
            stdin_piped: !pipes_to_null,
            stdout_piped: !pipes_to_null,
            stderr_piped: !pipes_to_null,
            stdin_writes: Seq::empty(),
            close_stdin: false,
        }
    }

    fn increases_privileges(&self) -> (r: bool) {
        false
    }

    fn spawn(&self, shell_command: String, pipes_to_null: bool) -> (r: SpawnPlan) {
        let mut arguments: Vec<String> = Vec::new();
        arguments.push("-c".to_owned());
        arguments.push(shell_command);
        let stdin_writes: Vec<String> = Vec::new();
        assert(arguments.deep_view() =~= seq!["-c"@, shell_command@]);
        assert(stdin_writes.deep_view() =~= Seq::<Seq<char>>::empty());
        SpawnPlan {
            program: self.shell_path.clone(),
            arguments,
            stdin_piped: !pipes_to_null,
            stdout_piped: !pipes_to_null,
            stderr_piped: !pipes_to_null,
            stdin_writes,
            close_stdin: false,
        }
    }
}

/// A shell spawner that escalates to root through "su" with the root password.
#[derive(Debug, Clone, PartialEq, Eq)]
pub struct SuShellSpawner {
    su_path: String,
    password: String,
}

impl SuShellSpawner {
    /// The path of the "su" binary.
    pub closed spec fn spec_su_path(self) -> Seq<char> {
        self.su_path@
    }

    /// The root password.
    pub closed spec fn spec_password(self) -> Seq<char> {
        self.password@
    }

    /// A spawner that authenticates with `password` and runs /usr/bin/su.
    pub fn new(password: &str) -> (r: Self)
        ensures
            r.spec_su_path() == "/usr/bin/su"@,
            r.spec_password() == password@,
    {
        SuShellSpawner { su_path: "/usr/bin/su".to_owned(), password: password.to_owned() }
    }

    /// Set the path of the "su" binary.
    pub fn su_path(self, su_path: &str) -> (r: Self)
        ensures
            r.spec_su_path() == su_path@,
            r.spec_password() == self.spec_password(),
    {
        SuShellSpawner { su_path: su_path.to_owned(), ..self }
    }
}

impl ShellSpawner for SuShellSpawner {
    open spec fn spec_increases_privileges(&self) -> bool {
        true
    }

    /// Run su, then write the password and the command followed by ` ; exit`.
    open spec fn spec_spawn(&self, shell_command: Seq<char>, pipes_to_null: bool) -> SpawnPlanView {
        su_plan(self.spec_su_path(), self.spec_password(), shell_command + " ; exit\n"@, pipes_to_null, false)
    }

    fn increases_privileges(&self) -> (r: bool) {
        true
    }

    fn spawn(&self, shell_command: String, pipes_to_null: bool) -> (r: SpawnPlan) {
        let mut command_line = shell_command;
        command_line.append(" ; exit\n");
        let mut stdin_writes: Vec<String> = Vec::new();
        stdin_writes.push(make_password_line(&self.password));
        stdin_writes.push(command_line);
        assert(stdin_writes.deep_view() =~= seq![password_line(self.password@), shell_command@ + " ; exit\n"@]);
        let arguments: Vec<String> = Vec::new();
        assert(arguments.deep_view() =~= Seq::<Seq<char>>::empty());
        SpawnPlan {
            program: self.su_path.clone(),
            arguments,
            stdin_piped: true,
            stdout_piped: !pipes_to_null,
            stderr_piped: !pipes_to_null,
            stdin_writes,
            close_stdin: false,
        }
    }
}

/// A shell spawner that escalates to root through "sudo", writing the password if one is given.
/// The password is optional: sudo often does not ask for one when the user has logged in recently.
#[derive(Debug, Clone, PartialEq, Eq)]
pub struct SudoShellSpawner {
    /// The path to the "sudo" binary, typically /usr/bin/sudo.
    pub sudo_path: String,
    /// The password needed to authenticate, if any.
    pub password: Option<String>,
}

impl ShellSpawner for SudoShellSpawner {
    open spec fn spec_increases_privileges(&self) -> bool {
        true
    }

    /// Run sudo with `-S -s` and the pieces of the command between its spaces, writing the
    /// password if there is one.
    open spec fn spec_spawn(&self, shell_command: Seq<char>, pipes_to_null: bool) -> SpawnPlanView {
        sudo_plan(
            self.sudo_path@,
            seq!["-S"@, "-s"@] + split_spaces(shell_command),
            self.password.deep_view(),
            pipes_to_null,
            false,
        )
    }

    fn increases_privileges(&self) -> (r: bool) {
        true
    }

    fn spawn(&self, shell_command: String, pipes_to_null: bool) -> (r: SpawnPlan) {
        let arguments = prepend_two("-S", "-s", split_spaces_vec(shell_command.as_str()));
        SpawnPlan {
            program: self.sudo_path.clone(),
            arguments,
            stdin_piped: true,
            stdout_piped: !pipes_to_null,
            stderr_piped: !pipes_to_null,
            stdin_writes: password_writes(&self.password),
            close_stdin: false,
        }
    }
}

} // verus!
