//! The arguments passed to the "firecracker" and "jailer" binaries, and their rendering into
//! the argument vectors of a process invocation.

use vstd::prelude::*;

use vstd::std_specs::cmp::PartialEqSpecImpl;

use crate::pairs::{
    as_map, clone_pairs, lemma_upsert_all_unique, lemma_upsert_commutes, lemma_upsert_unique, same_entries, unique_keys,
    upsert, upsert_all, upsert_pair, upsert_pairs,
};
use crate::text::{
    decimal, decimal_string, flag_arg, option_arg, option_decimal, pair_args, push_flag, push_option,
    push_option_decimal, push_pairs,
};

verus! {

/// A configuration of a Firecracker API Unix socket.
#[derive(Debug, Clone, PartialEq, Eq, PartialOrd, Ord)]
pub enum VmmApiSocket {
    /// The socket should be disabled via the --no-api argument.
    Disabled,
    /// The socket should be enabled at the given path via the --api-sock argument.
    Enabled(String),
}

/// A level of logging applied by Firecracker.
#[derive(Debug, Clone, Copy, PartialEq, Eq, PartialOrd, Ord)]
pub enum VmmLogLevel {
    Off,
    Trace,
    Debug,
    Info,
    Warn,
    Error,
}

/// The cgroup version used by the jailer, v1 by default.
#[derive(Debug, Clone, Copy, PartialEq, Eq, PartialOrd, Ord)]
pub enum JailerCgroupVersion {
    /// Cgroups v1
    V1,
    /// Cgroups v2
    V2,
}

/// Whether the configuration file of the arguments is used as is, disabled, or replaced.
#[derive(Debug, Clone, PartialEq, Eq)]
pub enum ConfigurationFileOverride {
    NoOverride,
    Disable,
    Enable(String),
}

/// The text Firecracker expects for a log level.
pub open spec fn log_level_text(level: VmmLogLevel) -> Seq<char> {
    match level {
        VmmLogLevel::Off => "Off"@,
        VmmLogLevel::Trace => "Trace"@,
        VmmLogLevel::Debug => "Debug"@,
        VmmLogLevel::Info => "Info"@,
        VmmLogLevel::Warn => "Warn"@,
        VmmLogLevel::Error => "Error"@,
    }
}

impl VmmLogLevel {
    /// The text Firecracker expects for this log level.
    pub fn to_string(&self) -> (s: String)
        ensures
            s@ == log_level_text(*self),
    {
        match self {
            VmmLogLevel::Off => "Off".to_owned(),
            VmmLogLevel::Trace => "Trace".to_owned(),
            VmmLogLevel::Debug => "Debug".to_owned(),
            VmmLogLevel::Info => "Info".to_owned(),
            VmmLogLevel::Warn => "Warn".to_owned(),
            VmmLogLevel::Error => "Error".to_owned(),
        }
    }
}

/// The text of a log level, when there is one.
pub open spec fn option_log_level_text(level: Option<VmmLogLevel>) -> Option<Seq<char>> {
    match level {
        Some(l) => Some(log_level_text(l)),
        None => None,
    }
}

/// The text the jailer expects for a cgroup version.
pub open spec fn cgroup_version_text(version: JailerCgroupVersion) -> Seq<char> {
    match version {
        JailerCgroupVersion::V1 => "1"@,
        JailerCgroupVersion::V2 => "2"@,
    }
}

/// The text of a cgroup version, when there is one.
pub open spec fn option_cgroup_version_text(version: Option<JailerCgroupVersion>) -> Option<Seq<char>> {
    match version {
        Some(v) => Some(cgroup_version_text(v)),
        None => None,
    }
}

/// The arguments of a "firecracker" invocation, as plain values.
pub struct VmmArgumentsView {
    /// The path of the API socket, or `None` when the socket is disabled.
    pub api_socket: Option<Seq<char>>,
    pub config_path: Option<Seq<char>>,
    pub log_level: Option<VmmLogLevel>,
    pub log_path: Option<Seq<char>>,
    pub show_log_origin: bool,
    pub log_module: Option<Seq<char>>,
    pub show_log_level: bool,
    pub enable_boot_timer: bool,
    pub api_max_payload_bytes: Option<u32>,
    pub metadata_path: Option<Seq<char>>,
    pub metrics_path: Option<Seq<char>>,
    pub mmds_size_limit: Option<u32>,
    pub disable_seccomp: bool,
    pub seccomp_path: Option<Seq<char>>,
}

/// Arguments passed by relevant executors to the "firecracker" binary.
#[derive(Debug, Clone, PartialEq, Eq, PartialOrd, Ord)]
pub struct VmmArguments {
    pub(crate) api_socket: VmmApiSocket,
    config_path: Option<String>,
    log_level: Option<VmmLogLevel>,
    pub(crate) log_path: Option<String>,
    show_log_origin: bool,
    log_module: Option<String>,
    show_log_level: bool,
    enable_boot_timer: bool,
    api_max_payload_bytes: Option<u32>,
    metadata_path: Option<String>,
    pub(crate) metrics_path: Option<String>,
    mmds_size_limit: Option<u32>,
    disable_seccomp: bool,
    seccomp_path: Option<String>,
}

/// The socket path of an API socket configuration, or `None` when it is disabled.
pub open spec fn api_socket_path(socket: VmmApiSocket) -> Option<Seq<char>> {
    match socket {
        VmmApiSocket::Disabled => None,
        VmmApiSocket::Enabled(p) => Some(p@),
    }
}

impl View for VmmArguments {
    type V = VmmArgumentsView;

    closed spec fn view(&self) -> VmmArgumentsView {
        VmmArgumentsView {
            api_socket: api_socket_path(self.api_socket),
            config_path: self.config_path.deep_view(),
            log_level: self.log_level,
            log_path: self.log_path.deep_view(),
            show_log_origin: self.show_log_origin,
            log_module: self.log_module.deep_view(),
            show_log_level: self.show_log_level,
            enable_boot_timer: self.enable_boot_timer,
            api_max_payload_bytes: self.api_max_payload_bytes,
            metadata_path: self.metadata_path.deep_view(),
            metrics_path: self.metrics_path.deep_view(),
            mmds_size_limit: self.mmds_size_limit,
            disable_seccomp: self.disable_seccomp,
            seccomp_path: self.seccomp_path.deep_view(),
        }
    }
}

/// The configuration file that an invocation uses: the one of the arguments, none, or the
/// replacement given by the override.
pub open spec fn effective_config_path(config_path: Option<Seq<char>>, config_override: ConfigurationFileOverride) -> Option<Seq<char>> {
    match config_override {
        ConfigurationFileOverride::NoOverride => config_path,
        ConfigurationFileOverride::Disable => None,
        ConfigurationFileOverride::Enable(p) => Some(p@),
    }
}

/// The API socket part of a "firecracker" argument vector.
pub open spec fn api_socket_args(api_socket: Option<Seq<char>>) -> Seq<Seq<char>> {
    match api_socket {
        None => seq!["--no-api"@],
        Some(p) => seq!["--api-sock"@, p],
    }
}

impl VmmArgumentsView {
    /// The argument vector of a "firecracker" invocation with these arguments, in order: the API
    /// socket, the configuration file, the logging options, and the remaining options.
    pub open spec fn joined(self, config_override: ConfigurationFileOverride) -> Seq<Seq<char>> {
        api_socket_args(self.api_socket)
            + option_arg("--config-file"@, effective_config_path(self.config_path, config_override))
            + option_arg("--level"@, option_log_level_text(self.log_level))
            + option_arg("--log-path"@, self.log_path)
            + flag_arg(self.show_log_origin, "--show-log-origin"@)
            + option_arg("--module"@, self.log_module)
            + flag_arg(self.show_log_level, "--show-level"@)
            + flag_arg(self.enable_boot_timer, "--boot-timer"@)
            + option_arg("--http-api-max-payload-size"@, option_decimal(self.api_max_payload_bytes))
            + option_arg("--metadata"@, self.metadata_path)
            + option_arg("--metrics-path"@, self.metrics_path)
            + option_arg("--mmds-size-limit"@, option_decimal(self.mmds_size_limit))
            + flag_arg(self.disable_seccomp, "--no-seccomp"@)
            + option_arg("--seccomp-filter"@, self.seccomp_path)
    }
}

impl VmmArguments {
    /// Arguments with the given API socket and every other option unset.
    pub fn new(api_socket: VmmApiSocket) -> (r: Self)
        ensures
            r@ == (VmmArgumentsView {
                api_socket: api_socket_path(api_socket),
                config_path: None,
                log_level: None,
                log_path: None,
                show_log_origin: false,
                log_module: None,
                show_log_level: false,
                enable_boot_timer: false,
                api_max_payload_bytes: None,
                metadata_path: None,
                metrics_path: None,
                mmds_size_limit: None,
                disable_seccomp: false,
                seccomp_path: None,
            }),
    {
        Self {
            api_socket,
            config_path: None,
            log_level: None,
            log_path: None,
            show_log_origin: false,
            log_module: None,
            show_log_level: false,
            enable_boot_timer: false,
            api_max_payload_bytes: None,
            metadata_path: None,
            metrics_path: None,
            mmds_size_limit: None,
            disable_seccomp: false,
            seccomp_path: None,
        }
    }

    pub fn config_path(self, config_path: &str) -> (r: Self)
        ensures
            r@ == (VmmArgumentsView { config_path: Some(config_path@), ..self@ }),
    {
        Self { config_path: Some(config_path.to_owned()), ..self }
    }

    pub fn log_level(self, log_level: VmmLogLevel) -> (r: Self)
        ensures
            r@ == (VmmArgumentsView { log_level: Some(log_level), ..self@ }),
    {
        Self { log_level: Some(log_level), ..self }
    }

    pub fn log_path(self, log_path: &str) -> (r: Self)
        ensures
            r@ == (VmmArgumentsView { log_path: Some(log_path@), ..self@ }),
    {
        Self { log_path: Some(log_path.to_owned()), ..self }
    }

    pub fn show_log_level(self) -> (r: Self)
        ensures
            r@ == (VmmArgumentsView { show_log_level: true, ..self@ }),
    {
        Self { show_log_level: true, ..self }
    }

    pub fn show_log_origin(self) -> (r: Self)
        ensures
            r@ == (VmmArgumentsView { show_log_origin: true, ..self@ }),
    {
        Self { show_log_origin: true, ..self }
    }

    pub fn log_module(self, log_module: &str) -> (r: Self)
        ensures
            r@ == (VmmArgumentsView { log_module: Some(log_module@), ..self@ }),
    {
        Self { log_module: Some(log_module.to_owned()), ..self }
    }

    pub fn enable_boot_timer(self) -> (r: Self)
        ensures
            r@ == (VmmArgumentsView { enable_boot_timer: true, ..self@ }),
    {
        Self { enable_boot_timer: true, ..self }
    }

    pub fn api_max_payload_bytes(self, amount: u32) -> (r: Self)
        ensures
            r@ == (VmmArgumentsView { api_max_payload_bytes: Some(amount), ..self@ }),
    {
        Self { api_max_payload_bytes: Some(amount), ..self }
    }

    pub fn metadata_path(self, metadata_path: &str) -> (r: Self)
        ensures
            r@ == (VmmArgumentsView { metadata_path: Some(metadata_path@), ..self@ }),
    {
        Self { metadata_path: Some(metadata_path.to_owned()), ..self }
    }

    pub fn metrics_path(self, metrics_path: &str) -> (r: Self)
        ensures
            r@ == (VmmArgumentsView { metrics_path: Some(metrics_path@), ..self@ }),
    {
        Self { metrics_path: Some(metrics_path.to_owned()), ..self }
    }

    pub fn mmds_size_limit(self, mmds_size_limit: u32) -> (r: Self)
        ensures
            r@ == (VmmArgumentsView { mmds_size_limit: Some(mmds_size_limit), ..self@ }),
    {
        Self { mmds_size_limit: Some(mmds_size_limit), ..self }
    }

    pub fn disable_seccomp(self) -> (r: Self)
        ensures
            r@ == (VmmArgumentsView { disable_seccomp: true, ..self@ }),
    {
        Self { disable_seccomp: true, ..self }
    }

    pub fn seccomp_path(self, seccomp_path: &str) -> (r: Self)
        ensures
            r@ == (VmmArgumentsView { seccomp_path: Some(seccomp_path@), ..self@ }),
    {
        Self { seccomp_path: Some(seccomp_path.to_owned()), ..self }
    }

    /// The API socket configuration.
    pub fn get_api_socket(&self) -> (r: &VmmApiSocket)
        ensures
            api_socket_path(*r) == self@.api_socket,
    {
        &self.api_socket
    }

    /// The path of the log file, if one is set.
    pub fn get_log_path(&self) -> (r: &Option<String>)
        ensures
            r.deep_view() == self@.log_path,
    {
        &self.log_path
    }

    /// The path of the metrics file, if one is set.
    pub fn get_metrics_path(&self) -> (r: &Option<String>)
        ensures
            r.deep_view() == self@.metrics_path,
    {
        &self.metrics_path
    }

    /// The argument vector of a "firecracker" invocation with these arguments.
    pub fn join(&self, config_override: ConfigurationFileOverride) -> (args: Vec<String>)
        ensures
            args.deep_view() == self@.joined(config_override),
    {
        let ghost v = self@;
        let ghost ov = config_override;
        let mut args: Vec<String> = Vec::with_capacity(1);
        match &self.api_socket {
            VmmApiSocket::Disabled => {
                args.push("--no-api".to_owned());
            },
            VmmApiSocket::Enabled(socket_path) => {
                args.push("--api-sock".to_owned());
                args.push(socket_path.clone());
            },
        }
        assert(args.deep_view() =~= api_socket_args(v.api_socket));

        let config_file = match config_override {
            ConfigurationFileOverride::NoOverride => self.config_path.clone(),
            ConfigurationFileOverride::Disable => None,
            ConfigurationFileOverride::Enable(path) => Some(path),
        };
        assert(config_file.deep_view() == effective_config_path(v.config_path, ov));
        push_option(&mut args, "--config-file", &config_file);

        let level = match self.log_level {
            Some(l) => Some(l.to_string()),
            None => None,
        };
        assert(level.deep_view() == option_log_level_text(v.log_level));
        push_option(&mut args, "--level", &level);
        push_option(&mut args, "--log-path", &self.log_path);
        push_flag(&mut args, self.show_log_origin, "--show-log-origin");
        push_option(&mut args, "--module", &self.log_module);
        push_flag(&mut args, self.show_log_level, "--show-level");
        push_flag(&mut args, self.enable_boot_timer, "--boot-timer");
        push_option_decimal(&mut args, "--http-api-max-payload-size", self.api_max_payload_bytes);
        push_option(&mut args, "--metadata", &self.metadata_path);
        push_option(&mut args, "--metrics-path", &self.metrics_path);
        push_option_decimal(&mut args, "--mmds-size-limit", self.mmds_size_limit);
        push_flag(&mut args, self.disable_seccomp, "--no-seccomp");
        push_option(&mut args, "--seccomp-filter", &self.seccomp_path);
        args
    }
}

/// The arguments of a "jailer" invocation, as plain values.
pub struct JailerArgumentsView {
    pub uid: u32,
    pub gid: u32,
    pub jail_id: Seq<char>,
    /// The cgroup key-value pairs, in the order in which their keys were first set.
    pub cgroup_values: Seq<(Seq<char>, Seq<char>)>,
    pub cgroup_version: Option<JailerCgroupVersion>,
    pub chroot_base_dir: Option<Seq<char>>,
    pub daemonize: bool,
    pub network_namespace_path: Option<Seq<char>>,
    pub exec_in_new_pid_ns: bool,
    pub parent_cgroup: Option<Seq<char>>,
    /// The resource limit key-value pairs, in the order in which their keys were first set.
    pub resource_limits: Seq<(Seq<char>, Seq<char>)>,
}

/// Arguments that are passed by relevant executors into the "jailer" binary.
#[derive(Debug, Eq)]
pub struct JailerArguments {
    uid: u32,
    gid: u32,
    pub(crate) jail_id: String,
    cgroup_values: Vec<(String, String)>,
    cgroup_version: Option<JailerCgroupVersion>,
    pub(crate) chroot_base_dir: Option<String>,
    daemonize: bool,
    network_namespace_path: Option<String>,
    exec_in_new_pid_ns: bool,
    parent_cgroup: Option<String>,
    resource_limits: Vec<(String, String)>,
}

impl View for JailerArguments {
    type V = JailerArgumentsView;

    closed spec fn view(&self) -> JailerArgumentsView {
        JailerArgumentsView {
            uid: self.uid,
            gid: self.gid,
            jail_id: self.jail_id@,
            cgroup_values: self.cgroup_values.deep_view(),
            cgroup_version: self.cgroup_version,
            chroot_base_dir: self.chroot_base_dir.deep_view(),
            daemonize: self.daemonize,
            network_namespace_path: self.network_namespace_path.deep_view(),
            exec_in_new_pid_ns: self.exec_in_new_pid_ns,
            parent_cgroup: self.parent_cgroup.deep_view(),
            resource_limits: self.resource_limits.deep_view(),
        }
    }
}

impl JailerArgumentsView {
    /// Whether two sets of arguments are the same: equal in every field, the cgroup values and
    /// resource limits compared as maps, whatever the order in which their keys were set.
    pub open spec fn same_as(self, other: Self) -> bool {
        &&& self.uid == other.uid
        &&& self.gid == other.gid
        &&& self.jail_id == other.jail_id
        &&& as_map(self.cgroup_values) == as_map(other.cgroup_values)
        &&& self.cgroup_version == other.cgroup_version
        &&& self.chroot_base_dir == other.chroot_base_dir
        &&& self.daemonize == other.daemonize
        &&& self.network_namespace_path == other.network_namespace_path
        &&& self.exec_in_new_pid_ns == other.exec_in_new_pid_ns
        &&& self.parent_cgroup == other.parent_cgroup
        &&& as_map(self.resource_limits) == as_map(other.resource_limits)
    }

    /// No cgroup key and no resource limit key is set twice.
    pub open spec fn well_formed(self) -> bool {
        unique_keys(self.cgroup_values) && unique_keys(self.resource_limits)
    }

    /// The argument vector of a "jailer" invocation of the given "firecracker" binary with these
    /// arguments: the binary, the user, group and jail identity, then the remaining options.
    pub open spec fn joined(self, firecracker_binary_path: Seq<char>) -> Seq<Seq<char>> {
        seq![
            "--exec-file"@,
            firecracker_binary_path,
            "--uid"@,
            decimal(self.uid as nat),
            "--gid"@,
            decimal(self.gid as nat),
            "--id"@,
            self.jail_id,
        ]
            + pair_args("--cgroup"@, self.cgroup_values)
            + option_arg("--cgroup-version"@, option_cgroup_version_text(self.cgroup_version))
            + option_arg("--chroot-base-dir"@, self.chroot_base_dir)
            + flag_arg(self.daemonize, "--daemonize"@)
            + option_arg("--netns"@, self.network_namespace_path)
            + flag_arg(self.exec_in_new_pid_ns, "--new-pid-ns"@)
            + option_arg("--parent-cgroup"@, self.parent_cgroup)
            + pair_args("--resource-limit"@, self.resource_limits)
    }
}

impl JailerArguments {
    #[verifier::type_invariant]
    spec fn keys_are_unique(self) -> bool {
        self@.well_formed()
    }

    /// Arguments for the given user, group and jail identity, with every other option unset.
    pub fn new(uid: u32, gid: u32, jail_id: &str) -> (r: Self)
        ensures
            r@ == (JailerArgumentsView {
                uid,
                gid,
                jail_id: jail_id@,
                cgroup_values: Seq::empty(),
                cgroup_version: None,
                chroot_base_dir: None,
                daemonize: false,
                network_namespace_path: None,
                exec_in_new_pid_ns: false,
                parent_cgroup: None,
                resource_limits: Seq::empty(),
            }),
            r@.well_formed(),
    {
        let r = Self {
            uid,
            gid,
            jail_id: jail_id.to_owned(),
            cgroup_values: Vec::new(),
            cgroup_version: None,
            chroot_base_dir: None,
            daemonize: false,
            network_namespace_path: None,
            exec_in_new_pid_ns: false,
            parent_cgroup: None,
            resource_limits: Vec::new(),
        };
        assert(r@.cgroup_values =~= Seq::<(Seq<char>, Seq<char>)>::empty());
        assert(r@.resource_limits =~= Seq::<(Seq<char>, Seq<char>)>::empty());
        r
    }

    /// Set the cgroup `key` to `value`.
    pub fn cgroup(self, key: &str, value: &str) -> (r: Self)
        ensures
            r@ == (JailerArgumentsView {
                cgroup_values: upsert(self@.cgroup_values, key@, value@),
                ..self@
            }),
            r@.well_formed(),
    {
        proof {
            use_type_invariant(&self);
            lemma_upsert_unique(self@.cgroup_values, key@, value@);
        }
        let JailerArguments {
            uid, gid, jail_id, cgroup_values, cgroup_version, chroot_base_dir, daemonize,
            network_namespace_path, exec_in_new_pid_ns, parent_cgroup, resource_limits,
        } = self;
        let mut cgroup_values = cgroup_values;
        upsert_pair(&mut cgroup_values, key.to_owned(), value.to_owned());
        JailerArguments {
            uid, gid, jail_id, cgroup_values, cgroup_version, chroot_base_dir, daemonize,
            network_namespace_path, exec_in_new_pid_ns, parent_cgroup, resource_limits,
        }
    }


    /// Set every cgroup pair of `cgroups`, in order.
    pub fn cgroups(self, cgroups: Vec<(String, String)>) -> (r: Self)
        ensures
            r@ == (JailerArgumentsView {
                cgroup_values: upsert_all(self@.cgroup_values, cgroups.deep_view()),
                ..self@
            }),
            r@.well_formed(),
    {
        proof {
            use_type_invariant(&self);
            lemma_upsert_all_unique(self@.cgroup_values, cgroups.deep_view());
        }
        let JailerArguments {
            uid, gid, jail_id, cgroup_values, cgroup_version, chroot_base_dir, daemonize,
            network_namespace_path, exec_in_new_pid_ns, parent_cgroup, resource_limits,
        } = self;
        let mut cgroup_values = cgroup_values;
        upsert_pairs(&mut cgroup_values, cgroups);
        JailerArguments {
            uid, gid, jail_id, cgroup_values, cgroup_version, chroot_base_dir, daemonize,
            network_namespace_path, exec_in_new_pid_ns, parent_cgroup, resource_limits,
        }
    }

    pub fn cgroup_version(self, cgroup_version: JailerCgroupVersion) -> (r: Self)
        ensures
            r@ == (JailerArgumentsView { cgroup_version: Some(cgroup_version), ..self@ }),
            r@.well_formed(),
    {
        proof {
            use_type_invariant(&self);
        }
        Self { cgroup_version: Some(cgroup_version), ..self }
    }

    pub fn chroot_base_dir(self, chroot_base_dir: &str) -> (r: Self)
        ensures
            r@ == (JailerArgumentsView { chroot_base_dir: Some(chroot_base_dir@), ..self@ }),
            r@.well_formed(),
    {
        proof {
            use_type_invariant(&self);
        }
        Self { chroot_base_dir: Some(chroot_base_dir.to_owned()), ..self }
    }

    pub fn daemonize(self) -> (r: Self)
        ensures
            r@ == (JailerArgumentsView { daemonize: true, ..self@ }),
            r@.well_formed(),
    {
        proof {
            use_type_invariant(&self);
        }
        Self { daemonize: true, ..self }
    }

    pub fn network_namespace_path(self, network_namespace_path: &str) -> (r: Self)
        ensures
            r@ == (JailerArgumentsView { network_namespace_path: Some(network_namespace_path@), ..self@ }),
            r@.well_formed(),
    {
        proof {
            use_type_invariant(&self);
        }
        Self { network_namespace_path: Some(network_namespace_path.to_owned()), ..self }
    }

    pub fn exec_in_new_pid_ns(self) -> (r: Self)
        ensures
            r@ == (JailerArgumentsView { exec_in_new_pid_ns: true, ..self@ }),
            r@.well_formed(),
    {
        proof {
            use_type_invariant(&self);
        }
        Self { exec_in_new_pid_ns: true, ..self }
    }

    pub fn parent_cgroup(self, parent_cgroup: &str) -> (r: Self)
        ensures
            r@ == (JailerArgumentsView { parent_cgroup: Some(parent_cgroup@), ..self@ }),
            r@.well_formed(),
    {
        proof {
            use_type_invariant(&self);
        }
        Self { parent_cgroup: Some(parent_cgroup.to_owned()), ..self }
    }

    /// Set the resource limit `key` to `value`.
    pub fn resource_limit(self, key: &str, value: &str) -> (r: Self)
        ensures
            r@ == (JailerArgumentsView {
                resource_limits: upsert(self@.resource_limits, key@, value@),
                ..self@
            }),
            r@.well_formed(),
    {
        proof {
            use_type_invariant(&self);
            lemma_upsert_unique(self@.resource_limits, key@, value@);
        }
        let JailerArguments {
            uid, gid, jail_id, cgroup_values, cgroup_version, chroot_base_dir, daemonize,
            network_namespace_path, exec_in_new_pid_ns, parent_cgroup, resource_limits,
        } = self;
        let mut resource_limits = resource_limits;
        upsert_pair(&mut resource_limits, key.to_owned(), value.to_owned());
        JailerArguments {
            uid, gid, jail_id, cgroup_values, cgroup_version, chroot_base_dir, daemonize,
            network_namespace_path, exec_in_new_pid_ns, parent_cgroup, resource_limits,
        }
    }

    /// Set every resource limit pair of `resource_limits`, in order.
    pub fn resource_limits(self, resource_limits: Vec<(String, String)>) -> (r: Self)
        ensures
            r@ == (JailerArgumentsView {
                resource_limits: upsert_all(self@.resource_limits, resource_limits.deep_view()),
                ..self@
            }),
            r@.well_formed(),
    {
        proof {
            use_type_invariant(&self);
            lemma_upsert_all_unique(self@.resource_limits, resource_limits.deep_view());
        }
        let more = resource_limits;
        let JailerArguments {
            uid, gid, jail_id, cgroup_values, cgroup_version, chroot_base_dir, daemonize,
            network_namespace_path, exec_in_new_pid_ns, parent_cgroup, resource_limits,
        } = self;
        let mut resource_limits = resource_limits;
        upsert_pairs(&mut resource_limits, more);
        JailerArguments {
            uid, gid, jail_id, cgroup_values, cgroup_version, chroot_base_dir, daemonize,
            network_namespace_path, exec_in_new_pid_ns, parent_cgroup, resource_limits,
        }
    }

    /// The argument vector of a "jailer" invocation of the given "firecracker" binary with
    /// these arguments.
    pub fn join(&self, firecracker_binary_path: &str) -> (args: Vec<String>)
        ensures
            args.deep_view() == self@.joined(firecracker_binary_path@),
    {
        let ghost v = self@;
        let mut args: Vec<String> = Vec::with_capacity(8);
        args.push("--exec-file".to_owned());
        args.push(firecracker_binary_path.to_owned());
        args.push("--uid".to_owned());
        args.push(decimal_string(self.uid as u64));
        args.push("--gid".to_owned());
        args.push(decimal_string(self.gid as u64));
        args.push("--id".to_owned());
        args.push(self.jail_id.clone());
        assert(args.deep_view() =~= seq![
            "--exec-file"@,
            firecracker_binary_path@,
            "--uid"@,
            decimal(v.uid as nat),
            "--gid"@,
            decimal(v.gid as nat),
            "--id"@,
            v.jail_id,
        ]);
        push_pairs(&mut args, "--cgroup", &self.cgroup_values);
        let version = match self.cgroup_version {
            Some(JailerCgroupVersion::V1) => Some("1".to_owned()),
            Some(JailerCgroupVersion::V2) => Some("2".to_owned()),
            None => None,
        };
        assert(version.deep_view() == option_cgroup_version_text(v.cgroup_version));
        push_option(&mut args, "--cgroup-version", &version);
        push_option(&mut args, "--chroot-base-dir", &self.chroot_base_dir);
        push_flag(&mut args, self.daemonize, "--daemonize");
        push_option(&mut args, "--netns", &self.network_namespace_path);
        push_flag(&mut args, self.exec_in_new_pid_ns, "--new-pid-ns");
        push_option(&mut args, "--parent-cgroup", &self.parent_cgroup);
        push_pairs(&mut args, "--resource-limit", &self.resource_limits);
        args
    }
}

impl Clone for JailerArguments {
    fn clone(&self) -> (r: Self)
        ensures
            r@ == self@,
    {
        proof {
            use_type_invariant(self);
        }
        JailerArguments {
            uid: self.uid,
            gid: self.gid,
            jail_id: self.jail_id.clone(),
            cgroup_values: clone_pairs(&self.cgroup_values),
            cgroup_version: self.cgroup_version,
            chroot_base_dir: self.chroot_base_dir.clone(),
            daemonize: self.daemonize,
            network_namespace_path: self.network_namespace_path.clone(),
            exec_in_new_pid_ns: self.exec_in_new_pid_ns,
            parent_cgroup: self.parent_cgroup.clone(),
            resource_limits: clone_pairs(&self.resource_limits),
        }
    }
}

/// Setting two different cgroup keys gives equal arguments in either order: the cgroup values
/// behave as a map.
pub proof fn lemma_cgroup_order_is_irrelevant(
    args: JailerArgumentsView,
    k1: Seq<char>,
    v1: Seq<char>,
    k2: Seq<char>,
    v2: Seq<char>,
)
    requires
        args.well_formed(),
        k1 != k2,
    ensures
        (JailerArgumentsView { cgroup_values: upsert(upsert(args.cgroup_values, k1, v1), k2, v2), ..args }).same_as(
            JailerArgumentsView { cgroup_values: upsert(upsert(args.cgroup_values, k2, v2), k1, v1), ..args },
        ),
{
    lemma_upsert_commutes(args.cgroup_values, k1, v1, k2, v2);
}

/// Whether two optional texts are the same.
fn same_optional_text(a: &Option<String>, b: &Option<String>) -> (r: bool)
    ensures
        r == (a.deep_view() == b.deep_view()),
{
    match (a, b) {
        (Some(x), Some(y)) => *x == *y,
        (None, None) => true,
        _ => false,
    }
}

/// Whether two optional cgroup versions are the same.
fn same_cgroup_version(a: Option<JailerCgroupVersion>, b: Option<JailerCgroupVersion>) -> (r: bool)
    ensures
        r == (a == b),
{
    match (a, b) {
        (Some(JailerCgroupVersion::V1), Some(JailerCgroupVersion::V1)) => true,
        (Some(JailerCgroupVersion::V2), Some(JailerCgroupVersion::V2)) => true,
        (None, None) => true,
        _ => false,
    }
}

impl PartialEq for JailerArguments {
    /// Two sets of arguments are equal when they are the same in every field, their cgroup values
    /// and resource limits compared as maps.
    fn eq(&self, other: &Self) -> (r: bool) {
        proof {
            use_type_invariant(self);
            use_type_invariant(other);
        }
        self.uid == other.uid && self.gid == other.gid && self.jail_id == other.jail_id
            && same_entries(&self.cgroup_values, &other.cgroup_values)
            && same_cgroup_version(self.cgroup_version, other.cgroup_version)
            && same_optional_text(&self.chroot_base_dir, &other.chroot_base_dir)
            && self.daemonize == other.daemonize
            && same_optional_text(&self.network_namespace_path, &other.network_namespace_path)
            && self.exec_in_new_pid_ns == other.exec_in_new_pid_ns
            && same_optional_text(&self.parent_cgroup, &other.parent_cgroup)
            && same_entries(&self.resource_limits, &other.resource_limits)
    }
}

impl PartialEqSpecImpl for JailerArguments {
    open spec fn obeys_eq_spec() -> bool {
        true
    }

    open spec fn eq_spec(&self, other: &Self) -> bool {
        self@.same_as(other@)
    }
}

} // verus!
