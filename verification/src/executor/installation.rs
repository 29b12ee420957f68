//! An installation of the Firecracker release binaries, and how the output of a binary's
//! `--version` is judged when the installation is verified.

use vstd::prelude::*;

use crate::text::{matches_at, occurs_at};

verus! {

/// The release binaries of the automatable Firecracker components: firecracker, jailer and
/// snapshot-editor. Using a partial installation with only some of them is not supported.
#[derive(Debug, Clone, PartialEq, Eq, PartialOrd, Ord, Hash)]
pub struct VmmInstallation {
    pub firecracker_path: String,
    pub jailer_path: String,
    pub snapshot_editor_path: String,
}

/// An error of the verification of an installation.
#[derive(Debug)]
pub enum VmmInstallationError {
    /// Accessing a file failed.
    FilesystemError(std::io::Error),
    /// A binary of the installation doesn't exist.
    BinaryMissing,
    /// A binary of the installation could not be executed.
    BinaryNotExecutable,
    /// A binary of the installation names itself as something else.
    BinaryIsOfIncorrectType,
    /// A binary's version does not match the expected version.
    BinaryDoesNotMatchExpectedVersion,
}

/// Whether `pattern` occurs somewhere in `text`.
pub open spec fn contains(text: Seq<char>, pattern: Seq<char>) -> bool {
    exists|i: int| 0 <= i <= text.len() && #[trigger] occurs_at(text, i, pattern)
}

/// The verdict on the output of a binary's `--version`: it must start with the binary's expected
/// name and contain the expected version.
pub open spec fn version_verdict(stdout: Seq<char>, expected_name: Seq<char>, expected_version: Seq<char>) -> Result<(), VmmInstallationError> {
    if !occurs_at(stdout, 0, expected_name) {
        Err(VmmInstallationError::BinaryIsOfIncorrectType)
    } else if !contains(stdout, expected_version) {
        Err(VmmInstallationError::BinaryDoesNotMatchExpectedVersion)
    } else {
        Ok(())
    }
}

/// Whether `pattern` occurs somewhere in `text`.
pub fn contains_text(text: &str, pattern: &str) -> (r: bool)
    ensures
        r == contains(text@, pattern@),
{
    let n = text.unicode_len();
    let m = pattern.unicode_len();
    let mut i: usize = 0;
    while i < n
        invariant
            i <= n,
            n == text@.len(),
            m == pattern@.len(),
            forall|j: int| 0 <= j < i ==> !#[trigger] occurs_at(text@, j, pattern@),
        decreases n - i,
    {
        if matches_at(text, n, i, pattern, m) {
            return true;
        }
        i += 1;
    }
    if matches_at(text, n, n, pattern, m) {
        return true;
    }
    assert forall|j: int| 0 <= j <= text@.len() implies !#[trigger] occurs_at(text@, j, pattern@) by {
        if j == n {
        }
    }
    false
}

/// Judge the output of a binary's `--version` against the binary's expected name and the expected
/// version.
pub fn check_version_output(stdout: &str, expected_name: &str, expected_version: &str) -> (r: Result<(), VmmInstallationError>)
    ensures
        match version_verdict(stdout@, expected_name@, expected_version@) {
            Ok(_) => r is Ok,
            Err(VmmInstallationError::BinaryIsOfIncorrectType) => r matches Err(VmmInstallationError::BinaryIsOfIncorrectType),
            Err(_) => r matches Err(VmmInstallationError::BinaryDoesNotMatchExpectedVersion),
        },
{
    let n = stdout.unicode_len();
    let m = expected_name.unicode_len();
    if !matches_at(stdout, n, 0, expected_name, m) {
        return Err(VmmInstallationError::BinaryIsOfIncorrectType);
    }
    if !contains_text(stdout, expected_version) {
        return Err(VmmInstallationError::BinaryDoesNotMatchExpectedVersion);
    }
    Ok(())
}

impl VmmInstallation {
    /// The binaries to verify, in order, each with the name its `--version` output must start with:
    /// firecracker as "Firecracker", jailer as "Jailer" and snapshot-editor as "snapshot-editor".
    pub fn verification_targets(&self) -> (r: Vec<(String, String)>)
        ensures
            r.deep_view() == seq![
                (self.firecracker_path@, "Firecracker"@),
                (self.jailer_path@, "Jailer"@),
                (self.snapshot_editor_path@, "snapshot-editor"@),
            ],
    {
        let mut r: Vec<(String, String)> = Vec::new();
        r.push((self.firecracker_path.clone(), "Firecracker".to_owned()));
        r.push((self.jailer_path.clone(), "Jailer".to_owned()));
        r.push((self.snapshot_editor_path.clone(), "snapshot-editor".to_owned()));
        assert(r.deep_view() =~= seq![
            (self.firecracker_path@, "Firecracker"@),
            (self.jailer_path@, "Jailer"@),
            (self.snapshot_editor_path@, "snapshot-editor"@),
        ]);
        r
    }
}

} // verus!
