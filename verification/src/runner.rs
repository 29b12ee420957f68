//! Running a program directly or with privileges elevated through "su" or "sudo": what that takes
//! is a [SpawnPlan], carried out by the caller.

use vstd::prelude::*;

use crate::process_spawner::{
    SpawnPlan, SpawnPlanView, direct_plan, elevated_command_line, make_elevated_command_line, make_password_line,
    password_line, password_writes, path_debug, su_plan, sudo_plan,
};
use crate::text::join_spaced;

verus! {

/// Something that runs a program with arguments, with or without elevated privileges.
pub trait Runner {
    /// Whether the spawned processes get other privileges than those of the current process.
    spec fn spec_increases_privileges(&self) -> bool;

    /// What running `path` with `arguments` takes.
    spec fn spec_spawn(&self, path: Seq<char>, arguments: Seq<Seq<char>>, pipes_to_null: bool) -> SpawnPlanView;

    /// Whether the spawned processes get other privileges than those of the current process.
    fn increases_privileges(&self) -> (r: bool)
        ensures
            r == self.spec_increases_privileges(),
    ;

    /// What running `path` with `arguments` takes.
    fn spawn(&self, path: &str, arguments: Vec<String>, pipes_to_null: bool) -> (r: SpawnPlan)
        ensures
            r@ == self.spec_spawn(path@, arguments.deep_view(), pipes_to_null),
    ;
}

/// A runner that runs the program directly.
#[derive(Debug, Clone, Copy, PartialEq, Eq)]
pub struct DirectRunner;

impl Runner for DirectRunner {
    open spec fn spec_increases_privileges(&self) -> bool {
        false
    }

    open spec fn spec_spawn(&self, path: Seq<char>, arguments: Seq<Seq<char>>, pipes_to_null: bool) -> SpawnPlanView {
        direct_plan(path, arguments, pipes_to_null)
    }

    fn increases_privileges(&self) -> (r: bool) {
        false
    }

    fn spawn(&self, path: &str, arguments: Vec<String>, pipes_to_null: bool) -> (r: SpawnPlan) {
        let stdin_writes: Vec<String> = Vec::new();
        assert(stdin_writes.deep_view() =~= Seq::<Seq<char>>::empty());
        SpawnPlan {
            program: path.to_owned(),
            arguments,
            stdin_piped: !pipes_to_null,
            stdout_piped: !pipes_to_null,
            stderr_piped: !pipes_to_null,
            stdin_writes,
            close_stdin: false,
        }
    }
}

/// A runner that elevates the program's privileges through "su" with the root password.
#[derive(Debug, Clone, PartialEq, Eq)]
pub struct SuRunner {
    su_path: String,
    password: String,
}

impl SuRunner {
    /// The path of the "su" binary.
    pub closed spec fn spec_su_path(self) -> Seq<char> {
        self.su_path@
    }

    /// The root password.
    pub closed spec fn spec_password(self) -> Seq<char> {
        self.password@
    }

    /// A runner that authenticates with `password` and runs /usr/bin/su.
    pub fn new(password: &str) -> (r: Self)
        ensures
            r.spec_su_path() == "/usr/bin/su"@,
            r.spec_password() == password@,
    {
        SuRunner { su_path: "/usr/bin/su".to_owned(), password: password.to_owned() }
    }

    /// Set the path of the "su" binary.
    pub fn su_path(self, su_path: &str) -> (r: Self)
        ensures
            r.spec_su_path() == su_path@,
            r.spec_password() == self.spec_password(),
    {
        SuRunner { su_path: su_path.to_owned(), ..self }
    }

    /// What running takes once the debug text of the program's path is known: run su, then write
    /// the password and the command line.
    pub fn spawn_with_path_text(&self, path_text: String, arguments: Vec<String>, pipes_to_null: bool) -> (r: SpawnPlan)
        ensures
            r@ == su_plan(
                self.spec_su_path(),
                self.spec_password(),
                path_text@ + " "@ + join_spaced(arguments.deep_view()) + " ; exit\n"@,
                pipes_to_null,
                false,
            ),
    {
        let ghost command_line = path_text@ + " "@ + join_spaced(arguments.deep_view()) + " ; exit\n"@;
        let mut stdin_writes: Vec<String> = Vec::new();
        stdin_writes.push(make_password_line(&self.password));
        stdin_writes.push(make_elevated_command_line(path_text, &arguments));
        assert(stdin_writes.deep_view() =~= seq![password_line(self.spec_password()), command_line]);
        let no_arguments: Vec<String> = Vec::new();
        assert(no_arguments.deep_view() =~= Seq::<Seq<char>>::empty());
        SpawnPlan {
            program: self.su_path.clone(),
            arguments: no_arguments,
            stdin_piped: true,
            stdout_piped: !pipes_to_null,
            stderr_piped: !pipes_to_null,
            stdin_writes,
            close_stdin: false,
        }
    }
}

impl Runner for SuRunner {
    open spec fn spec_increases_privileges(&self) -> bool {
        true
    }

    open spec fn spec_spawn(&self, path: Seq<char>, arguments: Seq<Seq<char>>, pipes_to_null: bool) -> SpawnPlanView {
        su_plan(self.spec_su_path(), self.spec_password(), elevated_command_line(path, arguments), pipes_to_null, false)
    }

    fn increases_privileges(&self) -> (r: bool) {
        true
    }

    fn spawn(&self, path: &str, arguments: Vec<String>, pipes_to_null: bool) -> (r: SpawnPlan) {
        self.spawn_with_path_text(path_debug(path), arguments, pipes_to_null)
    }
}

/// A runner that elevates the program's privileges through "sudo", writing the password if one is
/// given. The password is optional: sudo often does not ask for one when the user has logged in
/// recently, though passing it keeps authentication from failing unexpectedly.
#[derive(Debug, Clone, PartialEq, Eq)]
pub struct SudoRunner {
    /// The path to the "sudo" binary, typically /usr/bin/sudo.
    pub sudo_path: String,
    /// The password needed to authenticate, if any.
    pub password: Option<String>,
}

impl Runner for SudoRunner {
    open spec fn spec_increases_privileges(&self) -> bool {
        true
    }

    open spec fn spec_spawn(&self, path: Seq<char>, arguments: Seq<Seq<char>>, pipes_to_null: bool) -> SpawnPlanView {
        sudo_plan(
            self.sudo_path@,
            seq!["-S"@, "-s"@, path] + arguments,
            self.password.deep_view(),
            pipes_to_null,
            false,
        )
    }

    fn increases_privileges(&self) -> (r: bool) {
        true
    }

    fn spawn(&self, path: &str, arguments: Vec<String>, pipes_to_null: bool) -> (r: SpawnPlan) {
        let ghost given = arguments.deep_view();
        let mut args: Vec<String> = Vec::new();
        args.push("-S".to_owned());
        args.push("-s".to_owned());
        args.push(path.to_owned());
        let ghost front = args.deep_view();
        let mut rest = arguments;
        args.append(&mut rest);
        assert(args.deep_view() =~= front + given);
        assert(front =~= seq!["-S"@, "-s"@, path@]);
        SpawnPlan {
            program: self.sudo_path.clone(),
            arguments: args,
            stdin_piped: true,
            stdout_piped: !pipes_to_null,
            stderr_piped: !pipes_to_null,
            stdin_writes: password_writes(&self.password),
            close_stdin: false,
        }
    }
}

} // verus!
