//! The standard paths of a VM's resources: the sockets of its drives by drive identifier, its
//! metrics and log files, and its vsock sockets.

use vstd::prelude::*;

use super::configuration::{VmConfiguration, VmConfigurationData};
use super::models::{LoadSnapshot, MemoryBackend, MemoryBackendType};
use crate::text::{decimal, push_decimal};
use crate::pairs::{as_map, clone_pairs, get_value, has_key, lemma_upsert_all_unique, unique_keys, upsert_all, upsert_pairs};

verus! {

/// The standard paths of a VM's resources.
#[derive(Debug, PartialEq, Eq)]
pub struct VmStandardPaths {
    drive_sockets: Vec<(String, String)>,
    metrics_path: Option<String>,
    log_path: Option<String>,
    vsock_multiplexer_path: Option<String>,
    vsock_listener_paths: Vec<String>,
}

/// A copy of a list of strings.
fn clone_strings(strings: &Vec<String>) -> (r: Vec<String>)
    ensures
        r.deep_view() == strings.deep_view(),
{
    let mut r: Vec<String> = Vec::new();
    let mut i: usize = 0;
    while i < strings.len()
        invariant
            i <= strings.len(),
            r.deep_view() == strings.deep_view().take(i as int),
        decreases strings.len() - i,
    {
        let ghost prev = r.deep_view();
        let c = strings[i].clone();
        assert(strings.deep_view()[i as int] == c@);
        r.push(c);
        assert(r.deep_view() =~= prev.push(c@));
        assert(r.deep_view() =~= strings.deep_view().take(i + 1));
        i += 1;
    }
    assert(strings.deep_view().take(strings.len() as int) =~= strings.deep_view());
    r
}

impl Clone for VmStandardPaths {
    /// A copy of the same paths.
    fn clone(&self) -> (r: Self)
        ensures
            r.spec_drive_sockets() == self.spec_drive_sockets(),
            r.spec_metrics_path() == self.spec_metrics_path(),
            r.spec_log_path() == self.spec_log_path(),
            r.spec_vsock_multiplexer_path() == self.spec_vsock_multiplexer_path(),
            r.spec_vsock_listener_paths() == self.spec_vsock_listener_paths(),
    {
        proof {
            use_type_invariant(self);
        }
        VmStandardPaths {
            drive_sockets: clone_pairs(&self.drive_sockets),
            metrics_path: self.metrics_path.clone(),
            log_path: self.log_path.clone(),
            vsock_multiplexer_path: self.vsock_multiplexer_path.clone(),
            vsock_listener_paths: clone_strings(&self.vsock_listener_paths),
        }
    }
}

impl VmStandardPaths {
    #[verifier::type_invariant]
    spec fn drive_ids_unique(self) -> bool {
        unique_keys(self.drive_sockets.deep_view())
    }

    /// The socket path of each drive, by drive identifier, in the order the drives were given.
    pub closed spec fn spec_drive_sockets(self) -> Seq<(Seq<char>, Seq<char>)> {
        self.drive_sockets.deep_view()
    }

    /// The path of the metrics file, if any.
    pub closed spec fn spec_metrics_path(self) -> Option<Seq<char>> {
        self.metrics_path.deep_view()
    }

    /// The path of the log file, if any.
    pub closed spec fn spec_log_path(self) -> Option<Seq<char>> {
        self.log_path.deep_view()
    }

    /// The path of the vsock multiplexer socket, if any.
    pub closed spec fn spec_vsock_multiplexer_path(self) -> Option<Seq<char>> {
        self.vsock_multiplexer_path.deep_view()
    }

    /// The paths of the vsock listener sockets, in the order they were added.
    pub closed spec fn spec_vsock_listener_paths(self) -> Seq<Seq<char>> {
        self.vsock_listener_paths.deep_view()
    }

    /// The standard paths with the given drive sockets (a later socket for the same drive replaces
    /// an earlier one), files and multiplexer socket, and no vsock listeners yet.
    pub fn new(
        drive_sockets: Vec<(String, String)>,
        metrics_path: Option<String>,
        log_path: Option<String>,
        vsock_multiplexer_path: Option<String>,
    ) -> (r: Self)
        ensures
            r.spec_drive_sockets() == upsert_all(Seq::empty(), drive_sockets.deep_view()),
            r.spec_metrics_path() == metrics_path.deep_view(),
            r.spec_log_path() == log_path.deep_view(),
            r.spec_vsock_multiplexer_path() == vsock_multiplexer_path.deep_view(),
            r.spec_vsock_listener_paths() == Seq::<Seq<char>>::empty(),
    {
        let mut sockets: Vec<(String, String)> = Vec::new();
        let ghost empty = sockets.deep_view();
        let ghost given = drive_sockets.deep_view();
        assert(empty =~= Seq::<(Seq<char>, Seq<char>)>::empty());
        assert(unique_keys(empty));
        upsert_pairs(&mut sockets, drive_sockets);
        proof {
            lemma_upsert_all_unique(empty, given);
        }
        let listeners: Vec<String> = Vec::new();
        assert(listeners.deep_view() =~= Seq::<Seq<char>>::empty());
        VmStandardPaths {
            drive_sockets: sockets,
            metrics_path,
            log_path,
            vsock_multiplexer_path,
            vsock_listener_paths: listeners,
        }
    }

    /// Add the path of a vsock listener socket.
    pub fn add_vsock_listener_path(&mut self, socket_path: String)
        ensures
            final(self).spec_vsock_listener_paths() == old(self).spec_vsock_listener_paths().push(socket_path@),
            final(self).spec_drive_sockets() == old(self).spec_drive_sockets(),
            final(self).spec_metrics_path() == old(self).spec_metrics_path(),
            final(self).spec_log_path() == old(self).spec_log_path(),
            final(self).spec_vsock_multiplexer_path() == old(self).spec_vsock_multiplexer_path(),
    {
        proof {
            use_type_invariant(&*self);
        }
        let ghost before = self.vsock_listener_paths.deep_view();
        let mut listeners: Vec<String> = Vec::new();
        std::mem::swap(&mut listeners, &mut self.vsock_listener_paths);
        listeners.push(socket_path);
        self.vsock_listener_paths = listeners;
        assert(self.vsock_listener_paths.deep_view() =~= before.push(socket_path@));
    }

    /// The path of a new vsock listener socket for a host port: the multiplexer socket's path
    /// followed by `_` and the port, which is recorded among the listener paths; none when there is
    /// no multiplexer socket.
    pub fn register_vsock_listener(&mut self, host_port: u32) -> (r: Option<String>)
        ensures
            match old(self).spec_vsock_multiplexer_path() {
                None => r is None && final(self).spec_vsock_listener_paths() == old(self).spec_vsock_listener_paths(),
                Some(m) => r matches Some(path) && path@ == m + "_"@ + decimal(host_port as nat)
                    && final(self).spec_vsock_listener_paths() == old(self).spec_vsock_listener_paths().push(path@),
            },
            final(self).spec_drive_sockets() == old(self).spec_drive_sockets(),
            final(self).spec_metrics_path() == old(self).spec_metrics_path(),
            final(self).spec_log_path() == old(self).spec_log_path(),
            final(self).spec_vsock_multiplexer_path() == old(self).spec_vsock_multiplexer_path(),
    {
        let path = match &self.vsock_multiplexer_path {
            None => return None,
            Some(multiplexer_path) => {
                let mut path = multiplexer_path.clone();
                path.append("_");
                push_decimal(&mut path, host_port as u64);
                path
            },
        };
        self.add_vsock_listener_path(path.clone());
        Some(path)
    }

    /// The socket path of each drive, by drive identifier.
    pub fn get_drive_sockets(&self) -> (r: &Vec<(String, String)>)
        ensures
            r.deep_view() == self.spec_drive_sockets(),
            unique_keys(r.deep_view()),
    {
        proof {
            use_type_invariant(self);
        }
        &self.drive_sockets
    }

    /// The socket path of the drive with the given identifier, if it has one.
    pub fn get_drive_socket(&self, drive_id: &str) -> (r: Option<&String>)
        ensures
            r is None <==> !has_key(self.spec_drive_sockets(), drive_id@),
            r matches Some(path) ==> as_map(self.spec_drive_sockets())[drive_id@] == path@,
    {
        proof {
            use_type_invariant(self);
        }
        get_value(&self.drive_sockets, drive_id)
    }

    /// The path of the metrics file, if any.
    pub fn get_metrics_path(&self) -> (r: Option<&String>)
        ensures
            r.deep_view() == self.spec_metrics_path(),
    {
        self.metrics_path.as_ref()
    }

    /// The path of the log file, if any.
    pub fn get_log_path(&self) -> (r: Option<&String>)
        ensures
            r.deep_view() == self.spec_log_path(),
    {
        self.log_path.as_ref()
    }

    /// The path of the vsock multiplexer socket, if any.
    pub fn get_vsock_multiplexer_path(&self) -> (r: Option<&String>)
        ensures
            r.deep_view() == self.spec_vsock_multiplexer_path(),
    {
        self.vsock_multiplexer_path.as_ref()
    }

    /// The paths of the vsock listener sockets, in the order they were added.
    pub fn get_vsock_listener_paths(&self) -> (r: &Vec<String>)
        ensures
            r.deep_view() == self.spec_vsock_listener_paths(),
    {
        &self.vsock_listener_paths
    }
}

/// The outcome of creating a snapshot of a VM: where the snapshot and memory files are, and the
/// configuration data of the VM.
#[derive(Debug, Clone, PartialEq, Eq)]
pub struct VmSnapshotResult {
    pub snapshot_path: String,
    pub mem_file_path: String,
    pub configuration_data: VmConfigurationData,
}

impl VmSnapshotResult {
    /// The configuration of a VM restored from this snapshot: the snapshot file loaded with a file
    /// memory backend at the memory file, resumed or not as asked, with the same configuration data.
    pub fn into_configuration(self, resume_vm: bool) -> (r: VmConfiguration)
        ensures
            r matches VmConfiguration::RestoredFromSnapshot { load_snapshot, data } && {
                &&& data == self.configuration_data
                &&& load_snapshot.snapshot@ == self.snapshot_path@
                &&& load_snapshot.mem_backend.backend_type == MemoryBackendType::File
                &&& load_snapshot.mem_backend.backend@ == self.mem_file_path@
                &&& load_snapshot.resume_vm == Some(resume_vm)
                &&& load_snapshot.track_dirty_pages is None
                &&& load_snapshot.network_overrides@.len() == 0
            },
    {
        VmConfiguration::RestoredFromSnapshot {
            load_snapshot: LoadSnapshot {
                track_dirty_pages: None,
                mem_backend: MemoryBackend { backend_type: MemoryBackendType::File, backend: self.mem_file_path },
                snapshot: self.snapshot_path,
                resume_vm: Some(resume_vm),
                network_overrides: Vec::new(),
            },
            data: self.configuration_data,
        }
    }
}

} // verus!
