//! The unrestricted executor, which runs the "firecracker" binary directly, without jailing it or
//! ensuring that it doesn't run as root, and the identifiers a VMM can be given.

use vstd::prelude::*;

use super::argument_modifier::{apply_argument_modifier_chain, modified_by_chain, ArgumentModifier};
use super::arguments::{api_socket_path, ConfigurationFileOverride, VmmApiSocket, VmmArguments, VmmArgumentsView};
use super::installation::VmmInstallation;
use crate::process_spawner::SpawnPlan;
use crate::runner::Runner;

verus! {

/// Why a text was refused as a VMM identifier.
#[derive(Debug, Clone, Copy, PartialEq, Eq, PartialOrd, Ord, Hash)]
pub enum VmmIdParseError {
    TooShort,
    TooLong,
    ContainsInvalidCharacter,
}

/// Whether a character may stand in a VMM identifier: an ASCII letter or digit, or '-'.
pub open spec fn is_vmm_id_char(c: char) -> bool {
    ('0' <= c <= '9') || ('a' <= c <= 'z') || ('A' <= c <= 'Z') || c == '-'
}

/// The verdict on a candidate VMM identifier with the given characters and UTF-8 byte length:
/// shorter than 5 bytes is too short, longer than 60 bytes too long, and otherwise every
/// character must be an ASCII letter or digit or '-'.
pub open spec fn vmm_id_verdict(id: Seq<char>, byte_len: nat) -> Result<(), VmmIdParseError> {
    if byte_len < 5 {
        Err(VmmIdParseError::TooShort)
    } else if byte_len > 60 {
        Err(VmmIdParseError::TooLong)
    } else if exists|i: int| 0 <= i < id.len() && !is_vmm_id_char(#[trigger] id[i]) {
        Err(VmmIdParseError::ContainsInvalidCharacter)
    } else {
        Ok(())
    }
}

/// A validated identifier of a VMM.
#[derive(Debug, Clone, PartialEq, Eq, PartialOrd, Ord, Hash)]
pub struct VmmId(String);

impl View for VmmId {
    type V = Seq<char>;

    closed spec fn view(&self) -> Seq<char> {
        self.0@
    }
}

fn is_vmm_id_char_exec(c: char) -> (r: bool)
    ensures
        r == is_vmm_id_char(c),
{
    ('0' <= c && c <= '9') || ('a' <= c && c <= 'z') || ('A' <= c && c <= 'Z') || c == '-'
}

impl VmmId {
    /// Validate the given text as a VMM identifier.
    pub fn new(id: &str) -> (r: Result<VmmId, VmmIdParseError>)
        ensures
            vmm_id_verdict(id@, vstd::string::StringSliceAdditionalSpecFns::spec_bytes(id).len()) is Ok <==> r is Ok,
            r matches Ok(v) ==> v@ == id@,
            r matches Err(e) ==> vmm_id_verdict(id@, vstd::string::StringSliceAdditionalSpecFns::spec_bytes(id).len()) == Err::<(), VmmIdParseError>(e),
    {
        let byte_len = id.as_bytes().len();
        if byte_len < 5 {
            return Err(VmmIdParseError::TooShort);
        }
        if byte_len > 60 {
            return Err(VmmIdParseError::TooLong);
        }
        let n = id.unicode_len();
        let mut i: usize = 0;
        while i < n
            invariant
                n == id@.len(),
                i <= n,
                byte_len == vstd::string::StringSliceAdditionalSpecFns::spec_bytes(id).len(),
                5 <= byte_len <= 60,
                forall|j: int| 0 <= j < i ==> is_vmm_id_char(#[trigger] id@[j]),
            decreases n - i,
        {
            if !is_vmm_id_char_exec(id.get_char(i)) {
                assert(!is_vmm_id_char(id@[i as int]));
                return Err(VmmIdParseError::ContainsInvalidCharacter);
            }
            i += 1;
        }
        Ok(VmmId(id.to_owned()))
    }

    /// The identifier's text.
    pub fn as_str(&self) -> (s: &str)
        ensures
            s@ == self@,
    {
        self.0.as_str()
    }

    /// The identifier's text, owned.
    pub fn into_string(self) -> (s: String)
        ensures
            s@ == self@,
    {
        self.0
    }
}

impl AsRef<str> for VmmId {
    /// The identifier's text.
    fn as_ref(&self) -> (r: &str)
        ensures
            r@ == self@,
    {
        self.0.as_str()
    }
}

/// A step of preparing the environment of an unrestricted VMM.
#[derive(Debug, Clone, PartialEq, Eq)]
pub enum PrepareStep {
    /// The resource must exist (its absence fails the preparation); its ownership is then forced
    /// to the current user.
    RequireAndChown(String),
    /// A stale API socket at this path, if any, has its ownership forced and is removed.
    RemoveStaleSocket(String),
    /// The file is created along with its parent directories.
    CreateFileWithTree(String),
}

/// A step of cleaning up the environment of an unrestricted VMM.
#[derive(Debug, Clone, PartialEq, Eq)]
pub enum CleanupStep {
    /// The API socket at this path, if any, has its ownership forced and is removed.
    RemoveSocket(String),
    /// The file is removed.
    RemoveFile(String),
}

/// A preparation step as plain values.
pub enum PrepareStepView {
    RequireAndChown(Seq<char>),
    RemoveStaleSocket(Seq<char>),
    CreateFileWithTree(Seq<char>),
}

/// A cleanup step as plain values.
pub enum CleanupStepView {
    RemoveSocket(Seq<char>),
    RemoveFile(Seq<char>),
}

impl View for PrepareStep {
    type V = PrepareStepView;

    open spec fn view(&self) -> PrepareStepView {
        match self {
            PrepareStep::RequireAndChown(p) => PrepareStepView::RequireAndChown(p@),
            PrepareStep::RemoveStaleSocket(p) => PrepareStepView::RemoveStaleSocket(p@),
            PrepareStep::CreateFileWithTree(p) => PrepareStepView::CreateFileWithTree(p@),
        }
    }
}

impl View for CleanupStep {
    type V = CleanupStepView;

    open spec fn view(&self) -> CleanupStepView {
        match self {
            CleanupStep::RemoveSocket(p) => CleanupStepView::RemoveSocket(p@),
            CleanupStep::RemoveFile(p) => CleanupStepView::RemoveFile(p@),
        }
    }
}

/// The views of a sequence of preparation steps.
pub open spec fn prepare_views(steps: Seq<PrepareStep>) -> Seq<PrepareStepView> {
    steps.map_values(|s: PrepareStep| s@)
}

/// The views of a sequence of cleanup steps.
pub open spec fn cleanup_views(steps: Seq<CleanupStep>) -> Seq<CleanupStepView> {
    steps.map_values(|s: CleanupStep| s@)
}

/// The preparation of an unrestricted VMM: every resource must exist and is handed to the current
/// user, a stale API socket is removed, and the log and metrics files are created.
pub open spec fn prepare_plan(args: VmmArgumentsView, outer_paths: Seq<Seq<char>>) -> Seq<PrepareStepView> {
    outer_paths.map_values(|p: Seq<char>| PrepareStepView::RequireAndChown(p))
        + match args.api_socket {
            Some(p) => seq![PrepareStepView::RemoveStaleSocket(p)],
            None => Seq::empty(),
        }
        + match args.log_path {
            Some(p) => seq![PrepareStepView::CreateFileWithTree(p)],
            None => Seq::empty(),
        }
        + match args.metrics_path {
            Some(p) => seq![PrepareStepView::CreateFileWithTree(p)],
            None => Seq::empty(),
        }
}

/// The cleanup of an unrestricted VMM: the API socket is removed, and the log and metrics files
/// too when the executor was told to remove them.
pub open spec fn cleanup_plan(args: VmmArgumentsView, remove_logs: bool, remove_metrics: bool) -> Seq<CleanupStepView> {
    (match args.api_socket {
        Some(p) => seq![CleanupStepView::RemoveSocket(p)],
        None => Seq::empty(),
    })
        + match args.log_path {
            Some(p) => if remove_logs { seq![CleanupStepView::RemoveFile(p)] } else { Seq::empty() },
            None => Seq::empty(),
        }
        + match args.metrics_path {
            Some(p) => if remove_metrics { seq![CleanupStepView::RemoveFile(p)] } else { Seq::empty() },
            None => Seq::empty(),
        }
}

/// The arguments of an unrestricted invocation: the joined VMM arguments, modified by the chain,
/// followed by "--id ID" when an identifier was given.
pub open spec fn invocation_args(
    joined: Seq<Seq<char>>,
    modifiers: Seq<Box<dyn ArgumentModifier>>,
    id: Option<Seq<char>>,
) -> Seq<Seq<char>> {
    modified_by_chain(modifiers, joined) + match id {
        Some(i) => seq!["--id"@, i],
        None => Seq::empty(),
    }
}

/// An executor that uses the "firecracker" binary directly, without jailing it or ensuring it doesn't run as root.
/// This executor allows rootless execution, given that the user has access to /dev/kvm.
pub struct UnrestrictedVmmExecutor {
    vmm_arguments: VmmArguments,
    argument_modifier_chain: Vec<Box<dyn ArgumentModifier>>,
    remove_metrics_on_cleanup: bool,
    remove_logs_on_cleanup: bool,
    pipes_to_null: bool,
    id: Option<VmmId>,
}

impl UnrestrictedVmmExecutor {
    /// The VMM arguments of the executor.
    pub closed spec fn spec_arguments(&self) -> VmmArgumentsView {
        self.vmm_arguments@
    }

    /// The argument modifiers, in the order in which they are applied.
    pub closed spec fn spec_modifiers(&self) -> Seq<Box<dyn ArgumentModifier>> {
        self.argument_modifier_chain@
    }

    pub closed spec fn spec_remove_metrics_on_cleanup(&self) -> bool {
        self.remove_metrics_on_cleanup
    }

    pub closed spec fn spec_remove_logs_on_cleanup(&self) -> bool {
        self.remove_logs_on_cleanup
    }

    pub closed spec fn spec_pipes_to_null(&self) -> bool {
        self.pipes_to_null
    }

    /// The identifier of the VMM, if one was given.
    pub closed spec fn spec_id(&self) -> Option<Seq<char>> {
        match self.id {
            Some(i) => Some(i@),
            None => None,
        }
    }

    /// Whether every setting other than those named is the same in both executors.
    pub open spec fn same_except(self, other: Self, modifiers: bool, metrics: bool, logs: bool, pipes: bool, id: bool) -> bool {
        &&& self.spec_arguments() == other.spec_arguments()
        &&& (modifiers || self.spec_modifiers() == other.spec_modifiers())
        &&& (metrics || self.spec_remove_metrics_on_cleanup() == other.spec_remove_metrics_on_cleanup())
        &&& (logs || self.spec_remove_logs_on_cleanup() == other.spec_remove_logs_on_cleanup())
        &&& (pipes || self.spec_pipes_to_null() == other.spec_pipes_to_null())
        &&& (id || self.spec_id() == other.spec_id())
    }

    /// An executor for the given arguments, without modifiers or identifier, that removes nothing on
    /// cleanup and keeps the pipes.
    pub fn new(vmm_arguments: VmmArguments) -> (r: Self)
        ensures
            r.spec_arguments() == vmm_arguments@,
            r.spec_modifiers() == Seq::<Box<dyn ArgumentModifier>>::empty(),
            !r.spec_remove_metrics_on_cleanup(),
            !r.spec_remove_logs_on_cleanup(),
            !r.spec_pipes_to_null(),
            r.spec_id() is None,
    {
        Self {
            vmm_arguments,
            argument_modifier_chain: Vec::new(),
            remove_metrics_on_cleanup: false,
            remove_logs_on_cleanup: false,
            pipes_to_null: false,
            id: None,
        }
    }

    /// Add an argument modifier at the end of the chain.
    pub fn argument_modifier(self, argument_modifier: Box<dyn ArgumentModifier>) -> (r: Self)
        ensures
            r.spec_modifiers() == self.spec_modifiers().push(argument_modifier),
            r.same_except(self, true, false, false, false, false),
    {
        let mut chain = self.argument_modifier_chain;
        chain.push(argument_modifier);
        Self { argument_modifier_chain: chain, ..self }
    }

    /// Add the argument modifiers at the end of the chain, in order.
    pub fn argument_modifiers(self, argument_modifiers: Vec<Box<dyn ArgumentModifier>>) -> (r: Self)
        ensures
            r.spec_modifiers() == self.spec_modifiers() + argument_modifiers@,
            r.same_except(self, true, false, false, false, false),
    {
        let mut chain = self.argument_modifier_chain;
        let mut more = argument_modifiers;
        chain.append(&mut more);
        Self { argument_modifier_chain: chain, ..self }
    }

    pub fn remove_metrics_on_cleanup(self) -> (r: Self)
        ensures
            r.spec_remove_metrics_on_cleanup(),
            r.same_except(self, false, true, false, false, false),
    {
        Self { remove_metrics_on_cleanup: true, ..self }
    }

    pub fn remove_logs_on_cleanup(self) -> (r: Self)
        ensures
            r.spec_remove_logs_on_cleanup(),
            r.same_except(self, false, false, true, false, false),
    {
        Self { remove_logs_on_cleanup: true, ..self }
    }

    pub fn pipes_to_null(self) -> (r: Self)
        ensures
            r.spec_pipes_to_null(),
            r.same_except(self, false, false, false, true, false),
    {
        Self { pipes_to_null: true, ..self }
    }

    pub fn id(self, id: VmmId) -> (r: Self)
        ensures
            r.spec_id() == Some(id@),
            r.same_except(self, false, false, false, false, true),
    {
        Self { id: Some(id), ..self }
    }

    /// Whether the pipes of the VMM process are nulled.
    pub fn get_pipes_to_null(&self) -> (r: bool)
        ensures
            r == self.spec_pipes_to_null(),
    {
        self.pipes_to_null
    }

    /// The host location of the API socket, if one is enabled.
    pub fn get_socket_path(&self) -> (r: Option<String>)
        ensures
            r.deep_view() == self.spec_arguments().api_socket,
    {
        match self.vmm_arguments.get_api_socket() {
            VmmApiSocket::Disabled => None,
            VmmApiSocket::Enabled(path) => Some(path.clone()),
        }
    }

    /// Resolve an inner path into an outer path: without a jail, both are the same.
    pub fn inner_to_outer_path(&self, inner_path: &str) -> (r: String)
        ensures
            r@ == inner_path@,
    {
        inner_path.to_owned()
    }

    /// Whether the executor leaves no traces behind: an unrestricted one does not promise so.
    pub fn traceless(&self) -> (r: bool)
        ensures
            !r,
    {
        false
    }

    /// The steps that prepare the environment for an invocation, given the outer paths of the
    /// resources the VMM uses.
    pub fn prepare_steps(&self, outer_paths: &Vec<String>) -> (steps: Vec<PrepareStep>)
        ensures
            prepare_views(steps@) == prepare_plan(self.spec_arguments(), outer_paths.deep_view()),
    {
        let ghost args = self.vmm_arguments@;
        let mut steps: Vec<PrepareStep> = Vec::new();
        let mut i: usize = 0;
        while i < outer_paths.len()
            invariant
                i <= outer_paths.len(),
                prepare_views(steps@) == outer_paths.deep_view().take(i as int).map_values(|p: Seq<char>| PrepareStepView::RequireAndChown(p)),
            decreases outer_paths.len() - i,
        {
            let ghost prev = steps@;
            steps.push(PrepareStep::RequireAndChown(outer_paths[i].clone()));
            assert(prepare_views(steps@) =~= prepare_views(prev).push(PrepareStepView::RequireAndChown(outer_paths.deep_view()[i as int])));
            assert(prepare_views(steps@) =~= outer_paths.deep_view().take(i + 1).map_values(|p: Seq<char>| PrepareStepView::RequireAndChown(p)));
            i += 1;
        }
        assert(outer_paths.deep_view().take(outer_paths.len() as int) =~= outer_paths.deep_view());
        let ghost base = steps@;
        if let VmmApiSocket::Enabled(socket_path) = self.vmm_arguments.get_api_socket() {
            steps.push(PrepareStep::RemoveStaleSocket(socket_path.clone()));
        }
        let ghost with_socket = steps@;
        assert(prepare_views(with_socket) =~= prepare_views(base) + match args.api_socket {
            Some(p) => seq![PrepareStepView::RemoveStaleSocket(p)],
            None => Seq::<PrepareStepView>::empty(),
        });
        if let Some(log_path) = self.vmm_arguments.get_log_path() {
            steps.push(PrepareStep::CreateFileWithTree(log_path.clone()));
        }
        let ghost with_logs = steps@;
        assert(prepare_views(with_logs) =~= prepare_views(with_socket) + match args.log_path {
            Some(p) => seq![PrepareStepView::CreateFileWithTree(p)],
            None => Seq::<PrepareStepView>::empty(),
        });
        if let Some(metrics_path) = self.vmm_arguments.get_metrics_path() {
            steps.push(PrepareStep::CreateFileWithTree(metrics_path.clone()));
        }
        assert(prepare_views(steps@) =~= prepare_views(with_logs) + match args.metrics_path {
            Some(p) => seq![PrepareStepView::CreateFileWithTree(p)],
            None => Seq::<PrepareStepView>::empty(),
        });
        steps
    }

    /// The mapping from outer to inner paths produced by a preparation: without a jail, every
    /// path maps to itself.
    pub fn path_mappings(&self, outer_paths: &Vec<String>) -> (mappings: Vec<(String, String)>)
        ensures
            mappings.deep_view() == outer_paths.deep_view().map_values(|p: Seq<char>| (p, p)),
    {
        let mut mappings: Vec<(String, String)> = Vec::new();
        let mut i: usize = 0;
        while i < outer_paths.len()
            invariant
                i <= outer_paths.len(),
                mappings.deep_view() == outer_paths.deep_view().take(i as int).map_values(|p: Seq<char>| (p, p)),
            decreases outer_paths.len() - i,
        {
            let ghost prev = mappings.deep_view();
            let path = outer_paths[i].clone();
            let same = outer_paths[i].clone();
            mappings.push((path, same));
            assert(mappings.deep_view() =~= prev.push((outer_paths.deep_view()[i as int], outer_paths.deep_view()[i as int])));
            assert(mappings.deep_view() =~= outer_paths.deep_view().take(i + 1).map_values(|p: Seq<char>| (p, p)));
            i += 1;
        }
        assert(outer_paths.deep_view().take(outer_paths.len() as int) =~= outer_paths.deep_view());
        mappings
    }

    /// The arguments of the "firecracker" invocation.
    pub fn invocation_arguments(&self, config_override: ConfigurationFileOverride) -> (args: Vec<String>)
        ensures
            args.deep_view() == invocation_args(
                self.spec_arguments().joined(config_override),
                self.spec_modifiers(),
                self.spec_id(),
            ),
    {
        let mut args = self.vmm_arguments.join(config_override);
        apply_argument_modifier_chain(&mut args, &self.argument_modifier_chain);
        let ghost modified = args.deep_view();
        match &self.id {
            Some(id) => {
                args.push("--id".to_owned());
                args.push(id.as_str().to_owned());
            },
            None => {},
        }
        assert(args.deep_view() =~= modified + match self.spec_id() {
            Some(i) => seq!["--id"@, i],
            None => Seq::<Seq<char>>::empty(),
        });
        args
    }

    /// What invoking "firecracker" of the installation takes: the runner runs it with the
    /// invocation arguments, its pipes going to the null device when the executor says so.
    pub fn invoke<R: Runner>(&self, installation: &VmmInstallation, runner: &R, config_override: ConfigurationFileOverride) -> (r: SpawnPlan)
        ensures
            r@ == runner.spec_spawn(
                installation.firecracker_path@,
                invocation_args(self.spec_arguments().joined(config_override), self.spec_modifiers(), self.spec_id()),
                self.spec_pipes_to_null(),
            ),
    {
        let arguments = self.invocation_arguments(config_override);
        runner.spawn(installation.firecracker_path.as_str(), arguments, self.get_pipes_to_null())
    }

    /// The steps that clean up the environment after the VMM exited.
    pub fn cleanup_steps(&self) -> (steps: Vec<CleanupStep>)
        ensures
            cleanup_views(steps@) == cleanup_plan(
                self.spec_arguments(),
                self.spec_remove_logs_on_cleanup(),
                self.spec_remove_metrics_on_cleanup(),
            ),
    {
        let ghost args = self.vmm_arguments@;
        let mut steps: Vec<CleanupStep> = Vec::new();
        if let VmmApiSocket::Enabled(socket_path) = self.vmm_arguments.get_api_socket() {
            steps.push(CleanupStep::RemoveSocket(socket_path.clone()));
        }
        let ghost with_socket = steps@;
        assert(cleanup_views(with_socket) =~= match args.api_socket {
            Some(p) => seq![CleanupStepView::RemoveSocket(p)],
            None => Seq::<CleanupStepView>::empty(),
        });
        if self.remove_logs_on_cleanup {
            if let Some(log_path) = self.vmm_arguments.get_log_path() {
                steps.push(CleanupStep::RemoveFile(log_path.clone()));
            }
        }
        let ghost with_logs = steps@;
        assert(cleanup_views(with_logs) =~= cleanup_views(with_socket) + match args.log_path {
            Some(p) => if self.remove_logs_on_cleanup { seq![CleanupStepView::RemoveFile(p)] } else { Seq::<CleanupStepView>::empty() },
            None => Seq::<CleanupStepView>::empty(),
        });
        if self.remove_metrics_on_cleanup {
            if let Some(metrics_path) = self.vmm_arguments.get_metrics_path() {
                steps.push(CleanupStep::RemoveFile(metrics_path.clone()));
            }
        }
        assert(cleanup_views(steps@) =~= cleanup_views(with_logs) + match args.metrics_path {
            Some(p) => if self.remove_metrics_on_cleanup { seq![CleanupStepView::RemoveFile(p)] } else { Seq::<CleanupStepView>::empty() },
            None => Seq::<CleanupStepView>::empty(),
        });
        steps
    }
}


/// What the cleanup of an unrestricted VMM removes. The API socket is removed whenever it is
/// enabled; the log file is removed exactly when the executor was told to remove logs, and the
/// metrics file exactly when it was told to remove metrics, each setting on its own. Nothing else
/// is removed.
pub proof fn lemma_cleanup_removes(args: VmmArgumentsView, remove_logs: bool, remove_metrics: bool)
    ensures
        forall|p: Seq<char>| args.api_socket == Some(p)
            ==> #[trigger] cleanup_plan(args, remove_logs, remove_metrics).contains(CleanupStepView::RemoveSocket(p)),
        forall|p: Seq<char>| remove_logs && args.log_path == Some(p)
            ==> #[trigger] cleanup_plan(args, remove_logs, remove_metrics).contains(CleanupStepView::RemoveFile(p)),
        forall|p: Seq<char>| remove_metrics && args.metrics_path == Some(p)
            ==> #[trigger] cleanup_plan(args, remove_logs, remove_metrics).contains(CleanupStepView::RemoveFile(p)),
        forall|step: CleanupStepView| #[trigger] cleanup_plan(args, remove_logs, remove_metrics).contains(step) ==> match step {
            CleanupStepView::RemoveSocket(p) => args.api_socket == Some(p),
            CleanupStepView::RemoveFile(p) => (remove_logs && args.log_path == Some(p))
                || (remove_metrics && args.metrics_path == Some(p)),
        },
{
    broadcast use {crate::text::lemma_add_contains, crate::text::lemma_singleton_contains};

    assert forall|step: CleanupStepView| #[trigger] cleanup_plan(args, remove_logs, remove_metrics).contains(step) implies match step {
        CleanupStepView::RemoveSocket(p) => args.api_socket == Some(p),
        CleanupStepView::RemoveFile(p) => (remove_logs && args.log_path == Some(p))
            || (remove_metrics && args.metrics_path == Some(p)),
    } by {
        assert(!Seq::<CleanupStepView>::empty().contains(step));
    }
}


/// What the preparation of an unrestricted VMM does. Every outer path of a resource must exist and
/// is handed to the current user; a stale API socket at the enabled socket path is removed; the log
/// and metrics files are created with their directories. Nothing else is done.
pub proof fn lemma_prepare_does(args: VmmArgumentsView, outer_paths: Seq<Seq<char>>)
    ensures
        forall|i: int| 0 <= i < outer_paths.len() ==> #[trigger] prepare_plan(args, outer_paths)[i]
            == PrepareStepView::RequireAndChown(outer_paths[i]),
        forall|p: Seq<char>| args.api_socket == Some(p)
            ==> #[trigger] prepare_plan(args, outer_paths).contains(PrepareStepView::RemoveStaleSocket(p)),
        forall|p: Seq<char>| args.log_path == Some(p) || args.metrics_path == Some(p)
            ==> #[trigger] prepare_plan(args, outer_paths).contains(PrepareStepView::CreateFileWithTree(p)),
        forall|step: PrepareStepView| #[trigger] prepare_plan(args, outer_paths).contains(step) ==> match step {
            PrepareStepView::RequireAndChown(p) => outer_paths.contains(p),
            PrepareStepView::RemoveStaleSocket(p) => args.api_socket == Some(p),
            PrepareStepView::CreateFileWithTree(p) => args.log_path == Some(p) || args.metrics_path == Some(p),
        },
{
    broadcast use {crate::text::lemma_add_contains, crate::text::lemma_singleton_contains};

    let chowns = outer_paths.map_values(|p: Seq<char>| PrepareStepView::RequireAndChown(p));
    assert forall|step: PrepareStepView| #[trigger] chowns.contains(step) implies (step matches PrepareStepView::RequireAndChown(p)
        && outer_paths.contains(p)) by {
        let i = choose|i: int| 0 <= i < chowns.len() && chowns[i] == step;
        assert(outer_paths[i] == outer_paths[i]);
    }
    assert forall|step: PrepareStepView| #[trigger] prepare_plan(args, outer_paths).contains(step) implies match step {
        PrepareStepView::RequireAndChown(p) => outer_paths.contains(p),
        PrepareStepView::RemoveStaleSocket(p) => args.api_socket == Some(p),
        PrepareStepView::CreateFileWithTree(p) => args.log_path == Some(p) || args.metrics_path == Some(p),
    } by {
        assert(!Seq::<PrepareStepView>::empty().contains(step));
        if chowns.contains(step) {
        }
    }
}

} // verus!
