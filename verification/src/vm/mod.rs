//! High-level VM management: the data models of the Management API, the configuration of a VM,
//! the states of a VM, which operations each state allows, and the requests that initialize it.
//! The VM's process, files and API socket are driven by the caller, which reports what it
//! observed; this module decides what is allowed, what is sent and what the state becomes.

use vstd::prelude::*;

use crate::process::{ExitStatus, VmmProcess, VmmProcessError, VmmProcessState, is_terminated, observed_state};

use api::{
    ApiPayload, ApiRequest, ApiRequestView, VmApiCall, call_request, init_new, init_new_plan, init_restored_from_snapshot,
    init_restored_plan, request_views,
};
use configuration::{InitMethod, VmConfiguration};

pub mod models;
pub mod configuration;
pub mod api;
pub mod paths;
pub mod shutdown;

verus! {

/// The high-level state of a [Vm]. Unlike the state of a [VmmProcess], this state tracks the
/// virtual machine and its operating state, not that of the VMM itself.
#[derive(Debug, Clone, Copy, PartialEq, Eq, Structural)]
pub enum VmState {
    /// The [Vm] has been prepared but not started yet.
    NotStarted,
    /// The [Vm] was booted and is running.
    Running,
    /// The [Vm] was booted, but was paused per API request.
    Paused,
    /// The [Vm] (and [VmmProcess]) exited gracefully, typically with a 0 exit status.
    Exited,
    /// The [Vm] (and [VmmProcess]) exited with the provided abnormal exit status.
    Crashed(ExitStatus),
}

/// The state of a VM from the state of its process and whether it was paused: a started process
/// runs the VM or holds it paused, a terminated one ended it, and before that it has not started.
pub open spec fn vm_state(process_state: VmmProcessState, is_paused: bool) -> VmState {
    match process_state {
        VmmProcessState::Started => if is_paused { VmState::Paused } else { VmState::Running },
        VmmProcessState::Exited => VmState::Exited,
        VmmProcessState::Crashed(status) => VmState::Crashed(status),
        _ => VmState::NotStarted,
    }
}

/// A state check of a VM that failed.
#[derive(Debug, Clone, Copy, PartialEq, Eq)]
pub enum VmStateCheckError {
    ExitedOrCrashed { actual: VmState },
    PausedOrRunning { actual: VmState },
    Other { expected: VmState, actual: VmState },
}

/// An operation on a [Vm] that was refused or failed.
#[derive(Debug)]
pub enum VmError {
    /// The underlying VMM process refused the operation.
    ProcessError(VmmProcessError),
    /// The [VmState] of the [Vm] was incorrect.
    StateCheckError(VmStateCheckError),
    /// The API server answered a request with a fault.
    ApiRespondedWithFault { status_code: u16, fault_message: String },
    /// The API server answered a request that expects no content with this content.
    ApiResponseExpectedEmpty(String),
    /// The Management API socket did not become available in time.
    SocketWaitTimeout,
    /// A VM with a disabled Management API socket was attempted, which is not supported.
    DisabledApiSocketIsUnsupported,
}

/// The verdict of a check that the VM is in the expected state.
pub open spec fn state_verdict(actual: VmState, expected: VmState) -> Result<(), VmStateCheckError> {
    if actual == expected {
        Ok(())
    } else {
        Err(VmStateCheckError::Other { expected, actual })
    }
}

/// The verdict of a check that the VM is paused or running.
pub open spec fn paused_or_running_verdict(actual: VmState) -> Result<(), VmStateCheckError> {
    if actual == VmState::Running || actual == VmState::Paused {
        Ok(())
    } else {
        Err(VmStateCheckError::PausedOrRunning { actual })
    }
}

/// The verdict of a check that the VM exited or crashed.
pub open spec fn exited_or_crashed_verdict(actual: VmState) -> Result<(), VmStateCheckError> {
    if actual == VmState::Exited || actual is Crashed {
        Ok(())
    } else {
        Err(VmStateCheckError::ExitedOrCrashed { actual })
    }
}

/// The verdict on the state of a VM for a binding of the Management API: balloon statistics and a
/// pause need a running VM, a snapshot and a resume need a paused one, every other binding needs a
/// VM that is paused or running.
pub open spec fn call_verdict(call: VmApiCall, actual: VmState) -> Result<(), VmStateCheckError> {
    match call {
        VmApiCall::GetBalloonStatistics => state_verdict(actual, VmState::Running),
        VmApiCall::Pause => state_verdict(actual, VmState::Running),
        VmApiCall::CreateSnapshot => state_verdict(actual, VmState::Paused),
        VmApiCall::Resume => state_verdict(actual, VmState::Paused),
        _ => paused_or_running_verdict(actual),
    }
}

/// Whether the VM is paused after a binding of the Management API succeeded: a pause pauses it, a
/// resume resumes it, any other binding leaves it as it was.
pub open spec fn paused_after(call: VmApiCall, is_paused: bool) -> bool {
    match call {
        VmApiCall::Pause => true,
        VmApiCall::Resume => false,
        _ => is_paused,
    }
}

/// The local path that the JSON configuration of a new VM is written to, when it is initialized
/// through such a file.
pub open spec fn configuration_file(configuration: VmConfiguration) -> Option<Seq<char>> {
    match configuration {
        VmConfiguration::New { init_method: InitMethod::ViaJsonConfiguration(path), .. } => Some(path@),
        _ => None,
    }
}

/// The requests that initialize a VM once its API socket is available: those of a new VM
/// initialized through API calls, none for one initialized through a configuration file, and those
/// of a VM restored from a snapshot.
pub open spec fn start_requests(configuration: VmConfiguration) -> Seq<ApiRequestView> {
    match configuration {
        VmConfiguration::New { init_method: InitMethod::ViaApiCalls, data } => init_new_plan(data),
        VmConfiguration::New { .. } => Seq::empty(),
        VmConfiguration::RestoredFromSnapshot { data, .. } => init_restored_plan(data),
    }
}

/// What starting a VM takes, in order: writing its JSON configuration to a local path (after
/// giving the path to the VMM's owner) if it has one, invoking the process with that path, waiting
/// for the API socket, then sending the initialization requests.
#[derive(Debug, Clone, PartialEq, Eq)]
pub struct VmStartPlan {
    pub configuration_path: Option<String>,
    pub socket_path: String,
    pub init_requests: Vec<ApiRequest>,
}

/// A VM: the lifecycle of its VMM process, whether it was paused through the Management API, and
/// its configuration.
#[derive(Debug)]
pub struct Vm {
    process: VmmProcess,
    is_paused: bool,
    configuration: VmConfiguration,
}

impl Vm {
    /// The lifecycle of the VMM process.
    pub closed spec fn spec_process(self) -> VmmProcess {
        self.process
    }

    /// Whether the VM was paused through the Management API.
    pub closed spec fn spec_is_paused(self) -> bool {
        self.is_paused
    }

    /// The configuration of the VM.
    pub closed spec fn spec_configuration(self) -> VmConfiguration {
        self.configuration
    }

    /// The state of the VM as last observed.
    pub open spec fn spec_state(self) -> VmState {
        vm_state(self.spec_process().spec_state(), self.spec_is_paused())
    }

    /// The VM after observing whether its process terminated: only the process state changes.
    pub open spec fn observed(self, next: Vm, termination: Option<ExitStatus>) -> bool {
        &&& next.spec_process().spec_state() == observed_state(
            self.spec_process().spec_state(),
            self.spec_process().spec_has_child(),
            termination,
        )
        &&& next.spec_process().spec_has_child() == self.spec_process().spec_has_child()
        &&& next.spec_process().spec_pipes_taken() == self.spec_process().spec_pipes_taken()
        &&& next.spec_process().spec_socket_path() == self.spec_process().spec_socket_path()
        &&& next.spec_is_paused() == self.spec_is_paused()
        &&& next.spec_configuration() == self.spec_configuration()
    }

    /// A VM with the API socket that its executor reports and the given configuration, whose process
    /// awaits its preparation; refused when the socket is disabled.
    pub fn prepare(socket_path: Option<String>, configuration: VmConfiguration) -> (r: Result<Vm, VmError>)
        ensures
            socket_path is None ==> r matches Err(VmError::DisabledApiSocketIsUnsupported),
            socket_path is Some ==> (r matches Ok(vm) && {
                &&& vm.spec_process().spec_state() == VmmProcessState::AwaitingPrepare
                &&& !vm.spec_process().spec_has_child()
                &&& !vm.spec_process().spec_pipes_taken()
                &&& vm.spec_process().spec_socket_path() == socket_path.deep_view()
                &&& !vm.spec_is_paused()
                &&& vm.spec_configuration() == configuration
            }),
    {
        if socket_path.is_none() {
            return Err(VmError::DisabledApiSocketIsUnsupported);
        }
        let process = VmmProcess::new(socket_path);
        Ok(Vm { process, is_paused: false, configuration })
    }

    /// Record that the environment of the VM was prepared.
    pub fn prepared(&mut self)
        requires
            old(self).spec_process().spec_state() == VmmProcessState::AwaitingPrepare,
        ensures
            final(self).spec_process().spec_state() == VmmProcessState::AwaitingStart,
            !final(self).spec_process().spec_has_child(),
            final(self).spec_process().spec_pipes_taken() == old(self).spec_process().spec_pipes_taken(),
            final(self).spec_process().spec_socket_path() == old(self).spec_process().spec_socket_path(),
            final(self).spec_is_paused() == old(self).spec_is_paused(),
            final(self).spec_configuration() == old(self).spec_configuration(),
    {
        self.process.prepared();
    }

    /// The state of the VM after taking into account whether its process terminated
    /// (`termination` is what polling the process yielded).
    pub fn get_state(&mut self, termination: Option<ExitStatus>) -> (r: VmState)
        ensures
            old(self).observed(*final(self), termination),
            r == final(self).spec_state(),
    {
        let state = self.process.state(termination);
        match state {
            VmmProcessState::Started => if self.is_paused { VmState::Paused } else { VmState::Running },
            VmmProcessState::Exited => VmState::Exited,
            VmmProcessState::Crashed(status) => VmState::Crashed(status),
            _ => VmState::NotStarted,
        }
    }

    fn ensure_state(&mut self, expected: VmState, termination: Option<ExitStatus>) -> (r: Result<(), VmStateCheckError>)
        ensures
            old(self).observed(*final(self), termination),
            r == state_verdict(final(self).spec_state(), expected),
    {
        let current_state = self.get_state(termination);
        if current_state != expected {
            Err(VmStateCheckError::Other { expected, actual: current_state })
        } else {
            Ok(())
        }
    }

    fn ensure_paused_or_running(&mut self, termination: Option<ExitStatus>) -> (r: Result<(), VmStateCheckError>)
        ensures
            old(self).observed(*final(self), termination),
            r == paused_or_running_verdict(final(self).spec_state()),
    {
        let current_state = self.get_state(termination);
        if current_state != VmState::Running && current_state != VmState::Paused {
            Err(VmStateCheckError::PausedOrRunning { actual: current_state })
        } else {
            Ok(())
        }
    }

    fn ensure_exited_or_crashed(&mut self, termination: Option<ExitStatus>) -> (r: Result<(), VmStateCheckError>)
        ensures
            old(self).observed(*final(self), termination),
            r == exited_or_crashed_verdict(final(self).spec_state()),
    {
        let current_state = self.get_state(termination);
        if let VmState::Crashed(_) = current_state {
            return Ok(());
        }
        if current_state == VmState::Exited {
            return Ok(());
        }
        Err(VmStateCheckError::ExitedOrCrashed { actual: current_state })
    }

    /// The path of the Management API socket, if it is enabled.
    pub fn get_socket_path(&self) -> (r: Option<String>)
        ensures
            r.deep_view() == self.spec_process().spec_socket_path(),
    {
        self.process.get_socket_path()
    }

    /// Start the VM: allowed only when it has not started and its API socket is enabled. Says what
    /// starting takes (see [VmStartPlan]): the configuration file of a new VM initialized through
    /// one, the API socket, and the initialization requests.
    pub fn start(&mut self, termination: Option<ExitStatus>) -> (r: Result<VmStartPlan, VmError>)
        ensures
            old(self).observed(*final(self), termination),
            match state_verdict(final(self).spec_state(), VmState::NotStarted) {
                Err(e) => r matches Err(VmError::StateCheckError(e2)) && e2 == e,
                Ok(_) => match final(self).spec_process().spec_socket_path() {
                    None => r matches Err(VmError::DisabledApiSocketIsUnsupported),
                    Some(socket_path) => r matches Ok(plan) && {
                        &&& plan.socket_path@ == socket_path
                        &&& plan.configuration_path.deep_view() == configuration_file(final(self).spec_configuration())
                        &&& request_views(plan.init_requests@) == start_requests(final(self).spec_configuration())
                    },
                },
            },
    {
        if let Err(e) = self.ensure_state(VmState::NotStarted, termination) {
            return Err(VmError::StateCheckError(e));
        }
        let socket_path = match self.get_socket_path() {
            Some(path) => path,
            None => return Err(VmError::DisabledApiSocketIsUnsupported),
        };
        let (configuration_path, init_requests) = match &self.configuration {
            VmConfiguration::New { init_method: InitMethod::ViaJsonConfiguration(path), data: _ } => {
                let init_requests: Vec<ApiRequest> = Vec::new();
                assert(request_views(init_requests@) =~= Seq::<ApiRequestView>::empty());
                (Some(path.clone()), init_requests)
            },
            VmConfiguration::New { init_method: InitMethod::ViaApiCalls, data } => (None, init_new(data)),
            VmConfiguration::RestoredFromSnapshot { load_snapshot: _, data } => (None, init_restored_from_snapshot(data)),
        };
        Ok(VmStartPlan { configuration_path, socket_path, init_requests })
    }

    /// Whether the VMM process may be invoked: it must await its start.
    pub fn invoke(&mut self, termination: Option<ExitStatus>) -> (r: Result<(), VmError>)
        ensures
            old(self).observed(*final(self), termination),
            match crate::process::state_verdict(final(self).spec_process().spec_state(), VmmProcessState::AwaitingStart) {
                Err(e) => r matches Err(VmError::ProcessError(e2)) && e2 == e,
                Ok(_) => r is Ok,
            },
    {
        match self.process.invoke(termination) {
            Err(e) => Err(VmError::ProcessError(e)),
            Ok(_) => Ok(()),
        }
    }

    /// Whether a SIGKILL may be sent to the VMM process: it must be started.
    pub fn send_sigkill(&mut self, termination: Option<ExitStatus>) -> (r: Result<(), VmError>)
        ensures
            old(self).observed(*final(self), termination),
            match crate::process::state_verdict(final(self).spec_process().spec_state(), VmmProcessState::Started) {
                Err(e) => r matches Err(VmError::ProcessError(e2)) && e2 == e,
                Ok(_) => r is Ok,
            },
    {
        match self.process.send_sigkill(termination) {
            Err(e) => Err(VmError::ProcessError(e)),
            Ok(_) => Ok(()),
        }
    }

    /// Whether the VMM process may be waited for: it must be started.
    pub fn wait_for_exit(&mut self, termination: Option<ExitStatus>) -> (r: Result<(), VmError>)
        ensures
            old(self).observed(*final(self), termination),
            match crate::process::state_verdict(final(self).spec_process().spec_state(), VmmProcessState::Started) {
                Err(e) => r matches Err(VmError::ProcessError(e2)) && e2 == e,
                Ok(_) => r is Ok,
            },
    {
        match self.process.wait_for_exit(termination) {
            Err(e) => Err(VmError::ProcessError(e)),
            Ok(_) => Ok(()),
        }
    }

    /// The request that sends Ctrl+Alt+Del to the VM, when the VMM process is started and its API
    /// socket enabled.
    pub fn send_ctrl_alt_del(&mut self, termination: Option<ExitStatus>) -> (r: Result<ApiRequest, VmError>)
        ensures
            old(self).observed(*final(self), termination),
            match crate::process::state_verdict(final(self).spec_process().spec_state(), VmmProcessState::Started) {
                Err(e) => r matches Err(VmError::ProcessError(e2)) && e2 == e,
                Ok(_) => match final(self).spec_process().spec_socket_path() {
                    None => r matches Err(VmError::ProcessError(VmmProcessError::SocketWasDisabled)),
                    Some(_) => r matches Ok(request) && request@ == ("/actions"@, api::ApiMethod::Put, ApiPayload::SendCtrlAltDel),
                },
            },
    {
        match self.process.api_socket(termination) {
            Err(e) => Err(VmError::ProcessError(e)),
            Ok(_) => Ok(ApiRequest { route: "/actions".to_owned(), method: api::ApiMethod::Put, payload: ApiPayload::SendCtrlAltDel }),
        }
    }

    /// Record that the VMM process was invoked.
    pub fn invoked(&mut self)
        requires
            old(self).spec_process().spec_state() == VmmProcessState::AwaitingStart,
        ensures
            final(self).spec_process().spec_state() == VmmProcessState::Started,
            final(self).spec_process().spec_has_child(),
            !final(self).spec_process().spec_pipes_taken(),
            final(self).spec_process().spec_socket_path() == old(self).spec_process().spec_socket_path(),
            final(self).spec_is_paused() == old(self).spec_is_paused(),
            final(self).spec_configuration() == old(self).spec_configuration(),
    {
        self.process.invoked();
    }

    /// The request of a binding of the Management API, when the state of the VM allows the binding
    /// (see [call_verdict]).
    pub fn api_call(&mut self, call: &VmApiCall, termination: Option<ExitStatus>) -> (r: Result<ApiRequest, VmError>)
        ensures
            old(self).observed(*final(self), termination),
            match call_verdict(*call, final(self).spec_state()) {
                Err(e) => r matches Err(VmError::StateCheckError(e2)) && e2 == e,
                Ok(_) => r matches Ok(request) && request@ == call_request(*call),
            },
    {
        let verdict = match call {
            VmApiCall::GetBalloonStatistics => self.ensure_state(VmState::Running, termination),
            VmApiCall::Pause => self.ensure_state(VmState::Running, termination),
            VmApiCall::CreateSnapshot => self.ensure_state(VmState::Paused, termination),
            VmApiCall::Resume => self.ensure_state(VmState::Paused, termination),
            _ => self.ensure_paused_or_running(termination),
        };
        match verdict {
            Err(e) => Err(VmError::StateCheckError(e)),
            Ok(_) => Ok(call.request()),
        }
    }

    /// Record that a binding of the Management API succeeded: a pause pauses the VM and a resume
    /// resumes it.
    pub fn api_call_completed(&mut self, call: &VmApiCall)
        ensures
            final(self).spec_is_paused() == paused_after(*call, old(self).spec_is_paused()),
            final(self).spec_process() == old(self).spec_process(),
            final(self).spec_configuration() == old(self).spec_configuration(),
    {
        match call {
            VmApiCall::Pause => self.is_paused = true,
            VmApiCall::Resume => self.is_paused = false,
            _ => {},
        }
    }

    /// Whether a custom request to the Management API is allowed: the VM must be paused or running.
    pub fn api_custom_request(&mut self, termination: Option<ExitStatus>) -> (r: Result<(), VmError>)
        ensures
            old(self).observed(*final(self), termination),
            match paused_or_running_verdict(final(self).spec_state()) {
                Err(e) => r matches Err(VmError::StateCheckError(e2)) && e2 == e,
                Ok(_) => r is Ok,
            },
    {
        match self.ensure_paused_or_running(termination) {
            Err(e) => Err(VmError::StateCheckError(e)),
            Ok(_) => Ok(()),
        }
    }

    /// Record that a custom request succeeded, with the paused state that the caller says it led to.
    pub fn api_custom_request_completed(&mut self, new_is_paused: Option<bool>)
        ensures
            final(self).spec_is_paused() == match new_is_paused {
                Some(p) => p,
                None => old(self).spec_is_paused(),
            },
            final(self).spec_process() == old(self).spec_process(),
            final(self).spec_configuration() == old(self).spec_configuration(),
    {
        if let Some(new_is_paused) = new_is_paused {
            self.is_paused = new_is_paused;
        }
    }

    /// Whether the environment of the VM may be cleaned up: the VM must have exited or crashed.
    pub fn cleanup(&mut self, termination: Option<ExitStatus>) -> (r: Result<(), VmError>)
        ensures
            old(self).observed(*final(self), termination),
            match exited_or_crashed_verdict(final(self).spec_state()) {
                Err(e) => r matches Err(VmError::StateCheckError(e2)) && e2 == e,
                Ok(_) => r is Ok,
            },
    {
        match self.ensure_exited_or_crashed(termination) {
            Err(e) => Err(VmError::StateCheckError(e)),
            Ok(_) => Ok(()),
        }
    }

    /// Take out the pipes of the VMM process: the VM must be paused or running, and the pipes can
    /// be taken only once.
    pub fn take_pipes(&mut self, termination: Option<ExitStatus>) -> (r: Result<(), VmError>)
        ensures
            final(self).spec_process().spec_state() == observed_state(
                old(self).spec_process().spec_state(),
                old(self).spec_process().spec_has_child(),
                termination,
            ),
            final(self).spec_is_paused() == old(self).spec_is_paused(),
            final(self).spec_configuration() == old(self).spec_configuration(),
            match paused_or_running_verdict(final(self).spec_state()) {
                Err(e) => r matches Err(VmError::StateCheckError(e2)) && e2 == e
                    && final(self).spec_process().spec_pipes_taken() == old(self).spec_process().spec_pipes_taken(),
                Ok(_) => if old(self).spec_process().spec_pipes_taken() {
                    r matches Err(VmError::ProcessError(VmmProcessError::PipesAlreadyTaken))
                } else {
                    r is Ok && final(self).spec_process().spec_pipes_taken()
                },
            },
    {
        if let Err(e) = self.ensure_paused_or_running(termination) {
            return Err(VmError::StateCheckError(e));
        }
        match self.process.take_pipes(None) {
            Err(e) => Err(VmError::ProcessError(e)),
            Ok(_) => Ok(()),
        }
    }

    /// Record the exit status that waiting for the VMM process yielded.
    pub fn exited(&mut self, status: ExitStatus)
        requires
            old(self).spec_process().spec_has_child(),
        ensures
            old(self).observed(*final(self), Some(status)),
            is_terminated(final(self).spec_process().spec_state()),
    {
        self.process.exited(status);
    }

    /// The configuration of the VM.
    pub fn get_configuration(&self) -> (r: &VmConfiguration)
        ensures
            *r == self.spec_configuration(),
    {
        &self.configuration
    }
}


/// Pausing a running VM and then resuming it is allowed and brings it back to running: a pause
/// needs a running VM and leaves it paused, a resume needs a paused VM and leaves it running.
pub proof fn lemma_pause_then_resume(is_paused: bool)
    requires
        call_verdict(VmApiCall::Pause, vm_state(VmmProcessState::Started, is_paused)) is Ok,
    ensures
        vm_state(VmmProcessState::Started, paused_after(VmApiCall::Pause, is_paused)) == VmState::Paused,
        call_verdict(VmApiCall::Resume, vm_state(VmmProcessState::Started, paused_after(VmApiCall::Pause, is_paused))) is Ok,
        vm_state(
            VmmProcessState::Started,
            paused_after(VmApiCall::Resume, paused_after(VmApiCall::Pause, is_paused)),
        ) == VmState::Running,
{
}

/// A binding of the Management API is allowed only while the VM's process is started, and a
/// paused VM refuses a pause while a running one refuses a resume.
pub proof fn lemma_calls_need_started_process(call: VmApiCall, process_state: VmmProcessState, is_paused: bool)
    ensures
        call_verdict(call, vm_state(process_state, is_paused)) is Ok ==> process_state == VmmProcessState::Started,
        call_verdict(VmApiCall::Pause, vm_state(VmmProcessState::Started, true)) is Err,
        call_verdict(VmApiCall::Resume, vm_state(VmmProcessState::Started, false)) is Err,
{
}

/// A VM may be cleaned up exactly when its process terminated, and may be started only before its
/// process started.
pub proof fn lemma_cleanup_needs_termination(process_state: VmmProcessState, is_paused: bool)
    ensures
        exited_or_crashed_verdict(vm_state(process_state, is_paused)) is Ok <==> is_terminated(process_state),
        state_verdict(vm_state(process_state, is_paused), VmState::NotStarted) is Ok
            <==> (process_state == VmmProcessState::AwaitingPrepare || process_state == VmmProcessState::AwaitingStart),
{
}


/// What each binding of the Management API asks of the VM's state. A snapshot and a resume are
/// allowed exactly on a paused VM, and a pause and the balloon statistics exactly on a running one;
/// any other state is refused with the state that was expected and the one found. Every other
/// binding is allowed exactly on a VM that is paused or running.
pub proof fn lemma_call_state_requirements(call: VmApiCall, actual: VmState)
    ensures
        call is CreateSnapshot || call is Resume ==> {
            &&& (call_verdict(call, actual) is Ok <==> actual == VmState::Paused)
            &&& actual != VmState::Paused ==> call_verdict(call, actual) == Err::<(), VmStateCheckError>(
                VmStateCheckError::Other { expected: VmState::Paused, actual },
            )
        },
        call is Pause || call is GetBalloonStatistics ==> {
            &&& (call_verdict(call, actual) is Ok <==> actual == VmState::Running)
            &&& actual != VmState::Running ==> call_verdict(call, actual) == Err::<(), VmStateCheckError>(
                VmStateCheckError::Other { expected: VmState::Running, actual },
            )
        },
        !(call is CreateSnapshot || call is Resume || call is Pause || call is GetBalloonStatistics) ==> {
            &&& (call_verdict(call, actual) is Ok <==> (actual == VmState::Running || actual == VmState::Paused))
            &&& !(actual == VmState::Running || actual == VmState::Paused) ==> call_verdict(call, actual)
                == Err::<(), VmStateCheckError>(VmStateCheckError::PausedOrRunning { actual })
        },
{
}

/// A snapshot of a started VM can be taken only while it is paused: it is refused while the VM
/// runs, allowed after a pause, and refused again after the following resume.
pub proof fn lemma_snapshot_between_pause_and_resume(is_paused: bool)
    ensures
        call_verdict(VmApiCall::CreateSnapshot, vm_state(VmmProcessState::Started, false)) == Err::<(), VmStateCheckError>(
            VmStateCheckError::Other { expected: VmState::Paused, actual: VmState::Running },
        ),
        call_verdict(VmApiCall::CreateSnapshot, vm_state(VmmProcessState::Started, paused_after(VmApiCall::Pause, is_paused))) is Ok,
        call_verdict(
            VmApiCall::CreateSnapshot,
            vm_state(VmmProcessState::Started, paused_after(VmApiCall::Resume, paused_after(VmApiCall::Pause, is_paused))),
        ) is Err,
        call_verdict(VmApiCall::CreateSnapshot, vm_state(VmmProcessState::Started, is_paused)) is Ok <==> is_paused,
{
}

} // verus!
