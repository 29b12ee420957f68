//! Bindings to the "snapshot-editor" binary of an installation: the invocation each operation
//! runs, and how its exit status is judged.

use vstd::prelude::*;

use crate::executor::installation::VmmInstallation;
use crate::process::ExitStatus;
use crate::process_spawner::{SpawnPlan, SpawnPlanView};

verus! {

/// Access to the "snapshot-editor" binary of an installation.
pub trait SnapshotEditorExt {
    /// The bindings to the installation's "snapshot-editor" binary.
    fn snapshot_editor(&self) -> SnapshotEditor<'_>;
}

impl SnapshotEditorExt for VmmInstallation {
    fn snapshot_editor(&self) -> (r: SnapshotEditor<'_>)
        ensures
            r.spec_path() == self.snapshot_editor_path@,
    {
        SnapshotEditor { path: &self.snapshot_editor_path }
    }
}

/// Bindings to a "snapshot-editor" binary.
#[derive(Debug, Clone, PartialEq, Eq, PartialOrd, Ord, Hash)]
pub struct SnapshotEditor<'a> {
    path: &'a String,
}

/// A failed "snapshot-editor" invocation.
#[derive(Debug)]
pub enum SnapshotEditorError {
    /// The process could not be run.
    ProcessForkFailed(std::io::Error),
    /// The process exited with this unsuccessful status.
    ExitedWithNonZeroStatus(ExitStatus),
    /// A given path was not UTF-8, which is not supported.
    NonUTF8Path,
}

/// Running "snapshot-editor" at `path` with `arguments`: stdout and stderr piped, stdin connected
/// to the null device.
pub open spec fn editor_plan(path: Seq<char>, arguments: Seq<Seq<char>>) -> SpawnPlanView {
    SpawnPlanView {
        program: path,
        arguments,
        stdin_piped: false,
        stdout_piped: true,
        stderr_piped: true,
        stdin_writes: Seq::empty(),
        close_stdin: false,
    }
}

impl<'a> SnapshotEditor<'a> {
    /// The path of the binary.
    pub closed spec fn spec_path(self) -> Seq<char> {
        self.path@
    }

    /// The invocation that rebases the memory at `base_memory_path` onto `diff_memory_path`.
    pub fn rebase_memory(&self, base_memory_path: &str, diff_memory_path: &str) -> (r: SpawnPlan)
        ensures
            r@ == editor_plan(
                self.spec_path(),
                seq!["edit-memory"@, "rebase"@, "--memory-path"@, base_memory_path@, "--diff-path"@, diff_memory_path@],
            ),
    {
        let mut args: Vec<String> = Vec::new();
        args.push("edit-memory".to_owned());
        args.push("rebase".to_owned());
        args.push("--memory-path".to_owned());
        args.push(base_memory_path.to_owned());
        args.push("--diff-path".to_owned());
        args.push(diff_memory_path.to_owned());
        assert(args.deep_view() =~= seq![
            "edit-memory"@,
            "rebase"@,
            "--memory-path"@,
            base_memory_path@,
            "--diff-path"@,
            diff_memory_path@,
        ]);
        self.fork(args)
    }

    /// The invocation that prints the version of the snapshot at `snapshot_path`.
    pub fn get_snapshot_version(&self, snapshot_path: &str) -> (r: SpawnPlan)
        ensures
            r@ == editor_plan(self.spec_path(), seq!["info-vmstate"@, "version"@, "--vmstate-path"@, snapshot_path@]),
    {
        self.info_vmstate("version", snapshot_path)
    }

    /// The invocation that prints the vCPU states of the snapshot at `snapshot_path`.
    pub fn get_snapshot_vcpu_states(&self, snapshot_path: &str) -> (r: SpawnPlan)
        ensures
            r@ == editor_plan(self.spec_path(), seq!["info-vmstate"@, "vcpu-states"@, "--vmstate-path"@, snapshot_path@]),
    {
        self.info_vmstate("vcpu-states", snapshot_path)
    }

    /// The invocation that prints the VM state of the snapshot at `snapshot_path`.
    pub fn get_snapshot_vm_state(&self, snapshot_path: &str) -> (r: SpawnPlan)
        ensures
            r@ == editor_plan(self.spec_path(), seq!["info-vmstate"@, "vm-state"@, "--vmstate-path"@, snapshot_path@]),
    {
        self.info_vmstate("vm-state", snapshot_path)
    }

    fn info_vmstate(&self, what: &str, snapshot_path: &str) -> (r: SpawnPlan)
        ensures
            r@ == editor_plan(self.spec_path(), seq!["info-vmstate"@, what@, "--vmstate-path"@, snapshot_path@]),
    {
        let mut args: Vec<String> = Vec::new();
        args.push("info-vmstate".to_owned());
        args.push(what.to_owned());
        args.push("--vmstate-path".to_owned());
        args.push(snapshot_path.to_owned());
        assert(args.deep_view() =~= seq!["info-vmstate"@, what@, "--vmstate-path"@, snapshot_path@]);
        self.fork(args)
    }

    fn fork(&self, args: Vec<String>) -> (r: SpawnPlan)
        ensures
            r@ == editor_plan(self.spec_path(), args.deep_view()),
    {
        let stdin_writes: Vec<String> = Vec::new();
        assert(stdin_writes.deep_view() =~= Seq::<Seq<char>>::empty());
        SpawnPlan {
            program: self.path.clone(),
            arguments: args,
            stdin_piped: false,
            stdout_piped: true,
            stderr_piped: true,
            stdin_writes,
            close_stdin: false,
        }
    }

    /// The outcome of an invocation from its exit status.
    pub fn run_outcome(status: ExitStatus) -> (r: Result<(), SnapshotEditorError>)
        ensures
            status.spec_success() ==> r is Ok,
            !status.spec_success() ==> (r matches Err(SnapshotEditorError::ExitedWithNonZeroStatus(s)) && s == status),
    {
        if !status.success() {
            return Err(SnapshotEditorError::ExitedWithNonZeroStatus(status));
        }
        Ok(())
    }
}

} // verus!
