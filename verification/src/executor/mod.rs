//! VMM executors: the arguments of the "firecracker" and "jailer" invocations, the modifiers
//! that can be applied to them, the executors that prepare, invoke and clean up a VMM, and the
//! shell commands by which an executor forces the ownership of a path or creates a directory.

use vstd::prelude::*;

use crate::process::ExitStatus;
use crate::process_spawner::{SpawnPlan, SpawnPlanView};
use crate::shell_spawner::ShellSpawner;
use crate::text::{decimal, push_decimal};

pub mod arguments;
pub mod argument_modifier;
pub mod command_modifier;
pub mod installation;
pub mod unrestricted;

verus! {

/// `nix::unistd::geteuid`: the effective user ID of the current process, which depends on the
/// process, so nothing is stated of it.
#[verifier::external_body]
fn current_uid() -> u32 {
    nix::unistd::geteuid().as_raw()
}

/// `nix::unistd::getegid`: the effective group ID of the current process, which depends on the
/// process, so nothing is stated of it.
#[verifier::external_body]
fn current_gid() -> u32 {
    nix::unistd::getegid().as_raw()
}

/// An error of a VMM executor.
#[derive(Debug)]
pub enum FirecrackerExecutorError {
    /// An I/O operation failed.
    IoError(std::io::Error),
    /// Waiting for an auxiliary shell that forces an ownership or creates a directory failed.
    ShellForkFailed(std::io::Error),
    /// A forced chown command exited with this unsuccessful status.
    ChownExitedWithWrongStatus(ExitStatus),
    /// A forced mkdir command exited with this unsuccessful status.
    MkdirExitedWithWrongStatus(ExitStatus),
    /// Spawning a shell failed.
    ShellSpawnFailed(std::io::Error),
    /// A resource at this path was expected but doesn't exist or isn't accessible.
    ExpectedResourceMissing(String),
    /// A directory that is supposed to have a parent has none.
    ExpectedDirectoryParentMissing,
}

/// The command that hands a path, recursively, to the given user and group.
pub open spec fn chown_command(uid: u32, gid: u32, path: Seq<char>) -> Seq<char> {
    "chown -f -R "@ + decimal(uid as nat) + ":"@ + decimal(gid as nat) + " "@ + path
}

/// The command that creates a directory and its parents.
pub open spec fn mkdir_command(path: Seq<char>) -> Seq<char> {
    "mkdir -p "@ + path
}

/// The command that hands a path, recursively, to the given user and group.
pub fn make_chown_command(uid: u32, gid: u32, path: &str) -> (r: String)
    ensures
        r@ == chown_command(uid, gid, path@),
{
    let mut r = "chown -f -R ".to_owned();
    push_decimal(&mut r, uid as u64);
    r.append(":");
    push_decimal(&mut r, gid as u64);
    r.append(" ");
    r.append(path);
    r
}

/// Force the ownership of a path to the current user: nothing to do when the shell spawner does
/// not increase privileges; otherwise the shell that runs the chown command for the current
/// effective user and group.
pub fn force_chown<S: ShellSpawner>(path: &str, shell_spawner: &S) -> (r: Option<SpawnPlan>)
    ensures
        !shell_spawner.spec_increases_privileges() ==> r is None,
        shell_spawner.spec_increases_privileges() ==> (r matches Some(plan) && exists|uid: u32, gid: u32|
            plan@ == #[trigger] shell_spawner.spec_spawn(chown_command(uid, gid, path@), false)),
{
    if !shell_spawner.increases_privileges() {
        return None;
    }
    let uid = current_uid();
    let gid = current_gid();
    let plan = shell_spawner.spawn(make_chown_command(uid, gid, path), false);
    assert(plan@ == shell_spawner.spec_spawn(chown_command(uid, gid, path@), false));
    Some(plan)
}

/// The outcome of a forced chown from the exit status of its shell.
pub fn force_chown_outcome(status: ExitStatus) -> (r: Result<(), FirecrackerExecutorError>)
    ensures
        status.spec_success() ==> r is Ok,
        !status.spec_success() ==> (r matches Err(FirecrackerExecutorError::ChownExitedWithWrongStatus(s)) && s == status),
{
    if !status.success() {
        return Err(FirecrackerExecutorError::ChownExitedWithWrongStatus(status));
    }
    Ok(())
}

/// How a directory is created.
#[derive(Debug)]
pub enum ForcedMkdir {
    /// Create the directory and its parents directly.
    CreateDirAll(String),
    /// Spawn the shell that runs the mkdir command.
    Spawn(SpawnPlan),
}

/// Create a directory and its parents: directly when the shell spawner does not increase
/// privileges, and otherwise through a shell that runs the mkdir command.
pub fn force_mkdir<S: ShellSpawner>(path: &str, shell_spawner: &S) -> (r: ForcedMkdir)
    ensures
        !shell_spawner.spec_increases_privileges() ==> (r matches ForcedMkdir::CreateDirAll(p) && p@ == path@),
        shell_spawner.spec_increases_privileges() ==> (r matches ForcedMkdir::Spawn(plan)
            && plan@ == shell_spawner.spec_spawn(mkdir_command(path@), false)),
{
    if !shell_spawner.increases_privileges() {
        return ForcedMkdir::CreateDirAll(path.to_owned());
    }
    let mut command = "mkdir -p ".to_owned();
    command.append(path);
    ForcedMkdir::Spawn(shell_spawner.spawn(command, false))
}

/// The outcome of a forced mkdir from the exit status of its shell.
pub fn force_mkdir_outcome(status: ExitStatus) -> (r: Result<(), FirecrackerExecutorError>)
    ensures
        status.spec_success() ==> r is Ok,
        !status.spec_success() ==> (r matches Err(FirecrackerExecutorError::MkdirExitedWithWrongStatus(s)) && s == status),
{
    if !status.success() {
        return Err(FirecrackerExecutorError::MkdirExitedWithWrongStatus(status));
    }
    Ok(())
}

} // verus!
