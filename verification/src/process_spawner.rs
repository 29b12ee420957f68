//! What spawning a process takes, directly or with privileges elevated through "su" or "sudo":
//! the program and arguments, which standard streams are piped, and what is written to the
//! process's standard input. The process itself is spawned by the caller.

use vstd::prelude::*;

use crate::text::join_spaced;

verus! {

/// `format!("{:?}", Path::new(path))`: the debug text of a path, as `Debug` renders it (quoted, with
/// special characters escaped).
pub uninterp spec fn path_debug_text(path: Seq<char>) -> Seq<char>;

/// The debug text of a path, by `Debug` of `std::path::Path`.
#[verifier::external_body]
pub(crate) fn path_debug(path: &str) -> (r: String)
    ensures
        r@ == path_debug_text(path@),
{
    format!("{:?}", std::path::Path::new(path))
}

/// What spawning a process takes: the program and its arguments, which standard streams are piped
/// (the others are connected to the null device), what is written to its standard input right after
/// it started, and whether its standard input is closed afterwards.
#[derive(Debug, Clone, PartialEq, Eq)]
pub struct SpawnPlan {
    pub program: String,
    pub arguments: Vec<String>,
    pub stdin_piped: bool,
    pub stdout_piped: bool,
    pub stderr_piped: bool,
    pub stdin_writes: Vec<String>,
    pub close_stdin: bool,
}

/// The abstract content of a [SpawnPlan].
pub struct SpawnPlanView {
    pub program: Seq<char>,
    pub arguments: Seq<Seq<char>>,
    pub stdin_piped: bool,
    pub stdout_piped: bool,
    pub stderr_piped: bool,
    pub stdin_writes: Seq<Seq<char>>,
    pub close_stdin: bool,
}

impl View for SpawnPlan {
    type V = SpawnPlanView;

    open spec fn view(&self) -> SpawnPlanView {
        SpawnPlanView {
            program: self.program@,
            arguments: self.arguments.deep_view(),
            stdin_piped: self.stdin_piped,
            stdout_piped: self.stdout_piped,
            stderr_piped: self.stderr_piped,
            stdin_writes: self.stdin_writes.deep_view(),
            close_stdin: self.close_stdin,
        }
    }
}

/// The plan of running `program` with `arguments` directly, all three streams piped unless they
/// go to the null device.
pub open spec fn direct_plan(program: Seq<char>, arguments: Seq<Seq<char>>, pipes_to_null: bool) -> SpawnPlanView {
    SpawnPlanView {
        program,
        arguments,
        stdin_piped: !pipes_to_null,
        stdout_piped: !pipes_to_null,
        stderr_piped: !pipes_to_null,
        stdin_writes: Seq::empty(),
        close_stdin: false,
    }
}

/// The line that authenticates with a password.
pub open spec fn password_line(password: Seq<char>) -> Seq<char> {
    password + "\n"@
}

/// The line that runs a program through an elevated shell and then exits it: the debug text of the
/// program's path, a space, its arguments joined by spaces, and ` ; exit`.
pub open spec fn elevated_command_line(path: Seq<char>, arguments: Seq<Seq<char>>) -> Seq<char> {
    path_debug_text(path) + " "@ + join_spaced(arguments) + " ; exit\n"@
}

/// The plan of running `su_program` with stdin piped, and writing the password and then the
/// command to it.
pub open spec fn su_plan(
    su_program: Seq<char>,
    password: Seq<char>,
    command_line: Seq<char>,
    pipes_to_null: bool,
    close_stdin: bool,
) -> SpawnPlanView {
    SpawnPlanView {
        program: su_program,
        arguments: Seq::empty(),
        stdin_piped: true,
        stdout_piped: !pipes_to_null,
        stderr_piped: !pipes_to_null,
        stdin_writes: seq![password_line(password), command_line],
        close_stdin,
    }
}

/// The plan of running `sudo_program` with the given arguments and stdin piped, writing the
/// password to it if there is one.
pub open spec fn sudo_plan(
    sudo_program: Seq<char>,
    arguments: Seq<Seq<char>>,
    password: Option<Seq<char>>,
    pipes_to_null: bool,
    close_stdin: bool,
) -> SpawnPlanView {
    SpawnPlanView {
        program: sudo_program,
        arguments,
        stdin_piped: true,
        stdout_piped: !pipes_to_null,
        stderr_piped: !pipes_to_null,
        stdin_writes: match password {
            Some(p) => seq![password_line(p)],
            None => Seq::empty(),
        },
        close_stdin,
    }
}

/// The line that authenticates with a password.
pub(crate) fn make_password_line(password: &String) -> (r: String)
    ensures
        r@ == password_line(password@),
{
    let mut r = password.clone();
    r.append("\n");
    r
}

/// The line that runs a program through an elevated shell and then exits it.
pub(crate) fn make_elevated_command_line(path_text: String, arguments: &Vec<String>) -> (r: String)
    ensures
        r@ == path_text@ + " "@ + join_spaced(arguments.deep_view()) + " ; exit\n"@,
{
    let mut r = path_text;
    r.append(" ");
    r.append(crate::text::join_spaced_string(arguments).as_str());
    r.append(" ; exit\n");
    r
}

/// The writes of a password line, if there is a password.
pub(crate) fn password_writes(password: &Option<String>) -> (r: Vec<String>)
    ensures
        r.deep_view() == match password.deep_view() {
            Some(p) => seq![password_line(p)],
            None => Seq::<Seq<char>>::empty(),
        },
{
    let mut r: Vec<String> = Vec::new();
    match password {
        Some(p) => {
            r.push(make_password_line(p));
            assert(r.deep_view() =~= seq![password_line(p@)]);
        },
        None => {
            assert(r.deep_view() =~= Seq::<Seq<char>>::empty());
        },
    }
    r
}

/// `first`, `second` and then `rest`.
pub(crate) fn prepend_two(first: &str, second: &str, rest: Vec<String>) -> (r: Vec<String>)
    ensures
        r.deep_view() == seq![first@, second@] + rest.deep_view(),
{
    let mut r: Vec<String> = Vec::new();
    r.push(first.to_owned());
    r.push(second.to_owned());
    let ghost front = r.deep_view();
    let mut rest = rest;
    let ghost tail = rest.deep_view();
    r.append(&mut rest);
    assert(r.deep_view() =~= front + tail);
    assert(front =~= seq![first@, second@]);
    r
}

/// Something that spawns processes, with or without elevated privileges.
pub trait ProcessSpawner {
    /// What spawning `binary_path` with `arguments` takes.
    spec fn spec_spawn(&self, binary_path: Seq<char>, arguments: Seq<Seq<char>>, pipes_to_null: bool) -> SpawnPlanView;

    /// What spawning `binary_path` with `arguments` takes, optionally nulling as many of its pipes
    /// as feasible.
    fn spawn(&self, binary_path: &str, arguments: Vec<String>, pipes_to_null: bool) -> (r: SpawnPlan)
        ensures
            r@ == self.spec_spawn(binary_path@, arguments.deep_view(), pipes_to_null),
    ;
}

/// A spawner that runs the process directly.
#[derive(Debug, Clone, Copy, PartialEq, Eq)]
pub struct DirectProcessSpawner;

impl ProcessSpawner for DirectProcessSpawner {
    open spec fn spec_spawn(&self, binary_path: Seq<char>, arguments: Seq<Seq<char>>, pipes_to_null: bool) -> SpawnPlanView {
        direct_plan(binary_path, arguments, pipes_to_null)
    }

    fn spawn(&self, binary_path: &str, arguments: Vec<String>, pipes_to_null: bool) -> (r: SpawnPlan) {
        let stdin_writes: Vec<String> = Vec::new();
        assert(stdin_writes.deep_view() =~= Seq::<Seq<char>>::empty());
        SpawnPlan {
            program: binary_path.to_owned(),
            arguments,
            stdin_piped: !pipes_to_null,
            stdout_piped: !pipes_to_null,
            stderr_piped: !pipes_to_null,
            stdin_writes,
            close_stdin: false,
        }
    }
}

/// A spawner that elevates the process's privileges through "su" (by default the program "su"),
/// authenticating with a password.
#[derive(Debug, Clone, PartialEq, Eq)]
pub struct SuProcessSpawner {
    su_path: Option<String>,
    password: String,
}

impl SuProcessSpawner {
    /// The path of the "su" program, if one was given.
    pub closed spec fn spec_su_path(self) -> Option<Seq<char>> {
        self.su_path.deep_view()
    }

    /// The password.
    pub closed spec fn spec_password(self) -> Seq<char> {
        self.password@
    }

    /// The program that is run: the given path, or "su".
    pub open spec fn spec_program(self) -> Seq<char> {
        match self.spec_su_path() {
            Some(path) => path,
            None => "su"@,
        }
    }

    /// A spawner that authenticates with `password` and runs `su_path`, or "su" when none is given.
    pub fn new(password: String, su_path: Option<String>) -> (r: Self)
        ensures
            r.spec_password() == password@,
            r.spec_su_path() == su_path.deep_view(),
    {
        SuProcessSpawner { su_path, password }
    }

    /// What spawning takes once the debug text of the binary's path is known: run su, write the
    /// password and then the command line, and close stdin when the pipes go to the null device.
    pub fn spawn_with_path_text(&self, path_text: String, arguments: Vec<String>, pipes_to_null: bool) -> (r: SpawnPlan)
        ensures
            r@ == su_plan(
                self.spec_program(),
                self.spec_password(),
                path_text@ + " "@ + join_spaced(arguments.deep_view()) + " ; exit\n"@,
                pipes_to_null,
                pipes_to_null,
            ),
    {
        let program = match &self.su_path {
            Some(path) => path.clone(),
            None => "su".to_owned(),
        };
        let ghost command_line = path_text@ + " "@ + join_spaced(arguments.deep_view()) + " ; exit\n"@;
        let mut stdin_writes: Vec<String> = Vec::new();
        stdin_writes.push(make_password_line(&self.password));
        stdin_writes.push(make_elevated_command_line(path_text, &arguments));
        assert(stdin_writes.deep_view() =~= seq![password_line(self.spec_password()), command_line]);
        let no_arguments: Vec<String> = Vec::new();
        assert(no_arguments.deep_view() =~= Seq::<Seq<char>>::empty());
        SpawnPlan {
            program,
            arguments: no_arguments,
            stdin_piped: true,
            stdout_piped: !pipes_to_null,
            stderr_piped: !pipes_to_null,
            stdin_writes,
            close_stdin: pipes_to_null,
        }
    }
}

impl ProcessSpawner for SuProcessSpawner {
    open spec fn spec_spawn(&self, binary_path: Seq<char>, arguments: Seq<Seq<char>>, pipes_to_null: bool) -> SpawnPlanView {
        su_plan(
            self.spec_program(),
            self.spec_password(),
            elevated_command_line(binary_path, arguments),
            pipes_to_null,
            pipes_to_null,
        )
    }

    fn spawn(&self, binary_path: &str, arguments: Vec<String>, pipes_to_null: bool) -> (r: SpawnPlan) {
        self.spawn_with_path_text(path_debug(binary_path), arguments, pipes_to_null)
    }
}

/// A spawner that elevates the process's privileges through "sudo" (by default the program
/// "sudo"), writing a password if one is given.
#[derive(Debug, Clone, PartialEq, Eq)]
pub struct SudoProcessSpawner {
    sudo_path: Option<String>,
    password: Option<String>,
}

impl SudoProcessSpawner {
    /// The path of the "sudo" program, if one was given.
    pub closed spec fn spec_sudo_path(self) -> Option<Seq<char>> {
        self.sudo_path.deep_view()
    }

    /// The password, if one was given.
    pub closed spec fn spec_password(self) -> Option<Seq<char>> {
        self.password.deep_view()
    }

    /// The program that is run: the given path, or "sudo".
    pub open spec fn spec_program(self) -> Seq<char> {
        match self.spec_sudo_path() {
            Some(path) => path,
            None => "sudo"@,
        }
    }

    /// A spawner that authenticates with `password` if it is given and runs `sudo_path`, or "sudo"
    /// when none is given.
    pub fn new(password: Option<String>, sudo_path: Option<String>) -> (r: Self)
        ensures
            r.spec_password() == password.deep_view(),
            r.spec_sudo_path() == sudo_path.deep_view(),
    {
        SudoProcessSpawner { sudo_path, password }
    }
}

impl Default for SudoProcessSpawner {
    /// A spawner that runs "sudo" without a password.
    fn default() -> (r: Self)
        ensures
            r.spec_password() is None,
            r.spec_sudo_path() is None,
    {
        SudoProcessSpawner { sudo_path: None, password: None }
    }
}

impl ProcessSpawner for SudoProcessSpawner {
    open spec fn spec_spawn(&self, binary_path: Seq<char>, arguments: Seq<Seq<char>>, pipes_to_null: bool) -> SpawnPlanView {
        sudo_plan(
            self.spec_program(),
            seq!["-S"@, "-s"@, binary_path] + arguments,
            self.spec_password(),
            pipes_to_null,
            pipes_to_null,
        )
    }

    fn spawn(&self, binary_path: &str, arguments: Vec<String>, pipes_to_null: bool) -> (r: SpawnPlan) {
        let program = match &self.sudo_path {
            Some(path) => path.clone(),
            None => "sudo".to_owned(),
        };
        let ghost given = arguments.deep_view();
        let mut args: Vec<String> = Vec::new();
        args.push("-S".to_owned());
        args.push("-s".to_owned());
        args.push(binary_path.to_owned());
        let ghost front = args.deep_view();
        let mut rest = arguments;
        args.append(&mut rest);
        assert(args.deep_view() =~= front + given);
        assert(front =~= seq!["-S"@, "-s"@, binary_path@]);
        SpawnPlan {
            program,
            arguments: args,
            stdin_piped: true,
            stdout_piped: !pipes_to_null,
            stderr_piped: !pipes_to_null,
            stdin_writes: password_writes(&self.password),
            close_stdin: pipes_to_null,
        }
    }
}

} // verus!
