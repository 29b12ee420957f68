//! The lifecycle of a VMM process: the states it passes through and the operations each state
//! allows. The process itself is spawned, polled and killed by the caller, which reports what it
//! observed; this module decides what is allowed and what the state becomes.

use vstd::prelude::*;

verus! {

/// How a process terminated, as the raw wait status the operating system reports; a raw status
/// of 0 is an exit with code 0, i.e. a success.
#[derive(Debug, Clone, Copy, PartialEq, Eq, Structural, PartialOrd, Ord, Hash)]
pub struct ExitStatus {
    pub raw: i32,
}

impl ExitStatus {
    /// Whether the process exited successfully.
    pub open spec fn spec_success(self) -> bool {
        self.raw == 0
    }

    /// The exit status with the given raw wait status.
    pub fn from_raw(raw: i32) -> (r: Self)
        ensures
            r.raw == raw,
    {
        ExitStatus { raw }
    }

    /// Whether the process exited successfully.
    pub fn success(&self) -> (r: bool)
        ensures
            r == self.spec_success(),
    {
        self.raw == 0
    }
}

/// The state of a VMM process.
/// Keep in mind: the VMM process lifecycle is not that of the VM! If the process has
/// started without a config file, API requests will need to be issued first in order
/// to start it.
#[derive(Debug, Clone, Copy, PartialEq, Eq, Structural)]
pub enum VmmProcessState {
    /// The process hasn't started, and calling "prepare" is needed.
    AwaitingPrepare,
    /// The process hasn't started, a request to start it must be issued.
    AwaitingStart,
    /// The process is running without any faults.
    Started,
    /// The process has exited gracefully after a host-issued exit request.
    Exited,
    /// The process has crashed with the given non-zero exit status code.
    Crashed(ExitStatus),
}

/// An operation on a VMM process refused because of the process's state.
#[derive(Debug, Clone, Copy, PartialEq, Eq)]
pub enum VmmProcessError {
    /// The operation needs another state.
    ExpectedState { expected: VmmProcessState, actual: VmmProcessState },
    /// The operation needs the process to have exited or crashed.
    ExpectedExitedOrCrashed { actual: VmmProcessState },
    /// The API socket of the process was disabled.
    SocketWasDisabled,
    /// The pipes of the process were already taken out.
    PipesAlreadyTaken,
    /// The API server answered the Ctrl+Alt+Del request with this unsuccessful status code.
    CtrlAltDelRequestFailed(u16),
}

/// Whether the process has terminated, successfully or not.
pub open spec fn is_terminated(state: VmmProcessState) -> bool {
    state matches VmmProcessState::Exited || state matches VmmProcessState::Crashed(_)
}

/// The state of a process after observing, when it has a child, whether the child terminated:
/// a successful termination makes it exited, any other one crashed.
pub open spec fn observed_state(state: VmmProcessState, has_child: bool, termination: Option<ExitStatus>) -> VmmProcessState {
    if has_child {
        match termination {
            Some(status) => if status.spec_success() { VmmProcessState::Exited } else { VmmProcessState::Crashed(status) },
            None => state,
        }
    } else {
        state
    }
}

/// The verdict of a state check against an expected state.
pub open spec fn state_verdict(actual: VmmProcessState, expected: VmmProcessState) -> Result<(), VmmProcessError> {
    if actual == expected {
        Ok(())
    } else {
        Err(VmmProcessError::ExpectedState { expected, actual })
    }
}

/// The verdict of a check that the process terminated.
pub open spec fn terminated_verdict(actual: VmmProcessState) -> Result<(), VmmProcessError> {
    if is_terminated(actual) {
        Ok(())
    } else {
        Err(VmmProcessError::ExpectedExitedOrCrashed { actual })
    }
}

/// The lifecycle of a VMM process: its state, whether a child process was spawned for it, and
/// whether the child's pipes were taken out.
#[derive(Debug)]
pub struct VmmProcess {
    state: VmmProcessState,
    has_child: bool,
    pipes_taken: bool,
    socket_path: Option<String>,
}

impl VmmProcess {
    #[verifier::type_invariant]
    spec fn consistent(self) -> bool {
        &&& self.has_child <==> (self.state matches VmmProcessState::Started || is_terminated(self.state))
        &&& self.pipes_taken ==> self.has_child
        &&& (self.state matches VmmProcessState::Crashed(status) ==> !status.spec_success())
    }

    /// The tracked state.
    pub closed spec fn spec_state(self) -> VmmProcessState {
        self.state
    }

    /// Whether a child process was spawned.
    pub closed spec fn spec_has_child(self) -> bool {
        self.has_child
    }

    /// Whether the child's pipes were taken out.
    pub closed spec fn spec_pipes_taken(self) -> bool {
        self.pipes_taken
    }

    /// The outer path of the API socket, if one is enabled.
    pub closed spec fn spec_socket_path(self) -> Option<Seq<char>> {
        self.socket_path.deep_view()
    }

    /// The lifecycle of a process that awaits its preparation, with the API socket that its
    /// executor reports.
    pub fn new(socket_path: Option<String>) -> (r: Self)
        ensures
            r.spec_state() == VmmProcessState::AwaitingPrepare,
            !r.spec_has_child(),
            !r.spec_pipes_taken(),
            r.spec_socket_path() == socket_path.deep_view(),
    {
        VmmProcess { state: VmmProcessState::AwaitingPrepare, has_child: false, pipes_taken: false, socket_path }
    }

    /// The process state after taking into account whether the child terminated (`termination`
    /// is what polling the child yielded). Allowed in any state.
    pub fn state(&mut self, termination: Option<ExitStatus>) -> (r: VmmProcessState)
        ensures
            r == final(self).spec_state(),
            final(self).spec_state() == observed_state(old(self).spec_state(), old(self).spec_has_child(), termination),
            final(self).spec_has_child() == old(self).spec_has_child(),
            final(self).spec_pipes_taken() == old(self).spec_pipes_taken(),
            final(self).spec_socket_path() == old(self).spec_socket_path(),
    {
        proof {
            use_type_invariant(&*self);
        }
        if self.has_child {
            if let Some(status) = termination {
                if status.success() {
                    self.state = VmmProcessState::Exited;
                } else {
                    self.state = VmmProcessState::Crashed(status);
                }
            }
        }
        self.state
    }

    /// Check that the process is in the expected state, after taking the child's termination
    /// into account.
    pub fn ensure_state(&mut self, expected: VmmProcessState, termination: Option<ExitStatus>) -> (r: Result<(), VmmProcessError>)
        ensures
            final(self).spec_state() == observed_state(old(self).spec_state(), old(self).spec_has_child(), termination),
            r == state_verdict(final(self).spec_state(), expected),
            final(self).spec_has_child() == old(self).spec_has_child(),
            final(self).spec_pipes_taken() == old(self).spec_pipes_taken(),
            final(self).spec_socket_path() == old(self).spec_socket_path(),
    {
        let actual = self.state(termination);
        if actual != expected {
            return Err(VmmProcessError::ExpectedState { expected, actual });
        }
        Ok(())
    }

    /// Check that the process exited or crashed, after taking the child's termination into account.
    pub fn ensure_exited_or_crashed(&mut self, termination: Option<ExitStatus>) -> (r: Result<(), VmmProcessError>)
        ensures
            final(self).spec_state() == observed_state(old(self).spec_state(), old(self).spec_has_child(), termination),
            r == terminated_verdict(final(self).spec_state()),
            final(self).spec_has_child() == old(self).spec_has_child(),
            final(self).spec_pipes_taken() == old(self).spec_pipes_taken(),
            final(self).spec_socket_path() == old(self).spec_socket_path(),
    {
        let state = self.state(termination);
        match state {
            VmmProcessState::Crashed(_) => Ok(()),
            VmmProcessState::Exited => Ok(()),
            _ => Err(VmmProcessError::ExpectedExitedOrCrashed { actual: state }),
        }
    }

    /// The outer path of the API socket, if one is enabled.
    pub fn get_socket_path(&self) -> (r: Option<String>)
        ensures
            r.deep_view() == self.spec_socket_path(),
    {
        self.socket_path.clone()
    }

    /// Whether the environment may be prepared: the process must await its preparation.
    pub fn prepare(&mut self, termination: Option<ExitStatus>) -> (r: Result<(), VmmProcessError>)
        ensures
            final(self).spec_state() == observed_state(old(self).spec_state(), old(self).spec_has_child(), termination),
            r == state_verdict(final(self).spec_state(), VmmProcessState::AwaitingPrepare),
            final(self).spec_has_child() == old(self).spec_has_child(),
            final(self).spec_pipes_taken() == old(self).spec_pipes_taken(),
            final(self).spec_socket_path() == old(self).spec_socket_path(),
    {
        self.ensure_state(VmmProcessState::AwaitingPrepare, termination)
    }

    /// Whether the process may be invoked: it must await its start.
    pub fn invoke(&mut self, termination: Option<ExitStatus>) -> (r: Result<(), VmmProcessError>)
        ensures
            final(self).spec_state() == observed_state(old(self).spec_state(), old(self).spec_has_child(), termination),
            r == state_verdict(final(self).spec_state(), VmmProcessState::AwaitingStart),
            final(self).spec_has_child() == old(self).spec_has_child(),
            final(self).spec_pipes_taken() == old(self).spec_pipes_taken(),
            final(self).spec_socket_path() == old(self).spec_socket_path(),
    {
        self.ensure_state(VmmProcessState::AwaitingStart, termination)
    }

    /// Whether a SIGKILL may be sent to the process: it must be started.
    pub fn send_sigkill(&mut self, termination: Option<ExitStatus>) -> (r: Result<(), VmmProcessError>)
        ensures
            final(self).spec_state() == observed_state(old(self).spec_state(), old(self).spec_has_child(), termination),
            r == state_verdict(final(self).spec_state(), VmmProcessState::Started),
            final(self).spec_has_child() == old(self).spec_has_child(),
            final(self).spec_pipes_taken() == old(self).spec_pipes_taken(),
            final(self).spec_socket_path() == old(self).spec_socket_path(),
    {
        self.ensure_state(VmmProcessState::Started, termination)
    }

    /// Whether the process may be waited for: it must be started.
    pub fn wait_for_exit(&mut self, termination: Option<ExitStatus>) -> (r: Result<(), VmmProcessError>)
        ensures
            final(self).spec_state() == observed_state(old(self).spec_state(), old(self).spec_has_child(), termination),
            r == state_verdict(final(self).spec_state(), VmmProcessState::Started),
            final(self).spec_has_child() == old(self).spec_has_child(),
            final(self).spec_pipes_taken() == old(self).spec_pipes_taken(),
            final(self).spec_socket_path() == old(self).spec_socket_path(),
    {
        self.ensure_state(VmmProcessState::Started, termination)
    }

    /// Whether the environment may be cleaned up: the process must have exited or crashed.
    pub fn cleanup(&mut self, termination: Option<ExitStatus>) -> (r: Result<(), VmmProcessError>)
        ensures
            final(self).spec_state() == observed_state(old(self).spec_state(), old(self).spec_has_child(), termination),
            r == terminated_verdict(final(self).spec_state()),
            final(self).spec_has_child() == old(self).spec_has_child(),
            final(self).spec_pipes_taken() == old(self).spec_pipes_taken(),
            final(self).spec_socket_path() == old(self).spec_socket_path(),
    {
        self.ensure_exited_or_crashed(termination)
    }

    /// The outcome of a Ctrl+Alt+Del request from the status code that the API server answered it
    /// with: success for a 2xx code.
    pub fn ctrl_alt_del_outcome(status_code: u16) -> (r: Result<(), VmmProcessError>)
        ensures
            200 <= status_code < 300 ==> r is Ok,
            !(200 <= status_code < 300) ==> r == Err::<(), VmmProcessError>(VmmProcessError::CtrlAltDelRequestFailed(status_code)),
    {
        if !(200 <= status_code && status_code < 300) {
            return Err(VmmProcessError::CtrlAltDelRequestFailed(status_code));
        }
        Ok(())
    }

    /// Record that the environment was prepared. Allowed in the AwaitingPrepare state, results in
    /// the AwaitingStart state.
    pub fn prepared(&mut self)
        requires
            old(self).spec_state() == VmmProcessState::AwaitingPrepare,
        ensures
            final(self).spec_state() == VmmProcessState::AwaitingStart,
            !final(self).spec_has_child(),
            final(self).spec_pipes_taken() == old(self).spec_pipes_taken(),
            final(self).spec_socket_path() == old(self).spec_socket_path(),
    {
        proof {
            use_type_invariant(&*self);
        }
        self.state = VmmProcessState::AwaitingStart;
    }

    /// Record that the child process was spawned. Allowed in the AwaitingStart state, results in
    /// the Started state.
    pub fn invoked(&mut self)
        requires
            old(self).spec_state() == VmmProcessState::AwaitingStart,
        ensures
            final(self).spec_state() == VmmProcessState::Started,
            final(self).spec_has_child(),
            !final(self).spec_pipes_taken(),
            final(self).spec_socket_path() == old(self).spec_socket_path(),
    {
        proof {
            use_type_invariant(&*self);
        }
        let socket_path = self.socket_path.clone();
        *self = VmmProcess { state: VmmProcessState::Started, has_child: true, pipes_taken: false, socket_path };
    }

    /// The API socket that a request can be sent to: the process must be started and the socket
    /// enabled.
    pub fn api_socket(&mut self, termination: Option<ExitStatus>) -> (r: Result<String, VmmProcessError>)
        ensures
            final(self).spec_state() == observed_state(old(self).spec_state(), old(self).spec_has_child(), termination),
            final(self).spec_has_child() == old(self).spec_has_child(),
            final(self).spec_pipes_taken() == old(self).spec_pipes_taken(),
            final(self).spec_socket_path() == old(self).spec_socket_path(),
            match state_verdict(final(self).spec_state(), VmmProcessState::Started) {
                Err(e) => r == Err::<String, VmmProcessError>(e),
                Ok(_) => match final(self).spec_socket_path() {
                    None => r == Err::<String, VmmProcessError>(VmmProcessError::SocketWasDisabled),
                    Some(p) => r matches Ok(s) && s@ == p,
                },
            },
    {
        self.ensure_state(VmmProcessState::Started, termination)?;
        match &self.socket_path {
            Some(path) => Ok(path.clone()),
            None => Err(VmmProcessError::SocketWasDisabled),
        }
    }

    /// Take out the pipes of the child process: the process must be started, and the pipes can be
    /// taken only once.
    pub fn take_pipes(&mut self, termination: Option<ExitStatus>) -> (r: Result<(), VmmProcessError>)
        ensures
            final(self).spec_state() == observed_state(old(self).spec_state(), old(self).spec_has_child(), termination),
            final(self).spec_has_child() == old(self).spec_has_child(),
            final(self).spec_socket_path() == old(self).spec_socket_path(),
            match state_verdict(final(self).spec_state(), VmmProcessState::Started) {
                Err(e) => r == Err::<(), VmmProcessError>(e) && final(self).spec_pipes_taken() == old(self).spec_pipes_taken(),
                Ok(_) => if old(self).spec_pipes_taken() {
                    r == Err::<(), VmmProcessError>(VmmProcessError::PipesAlreadyTaken) && final(self).spec_pipes_taken()
                } else {
                    r is Ok && final(self).spec_pipes_taken()
                },
            },
    {
        self.ensure_state(VmmProcessState::Started, termination)?;
        proof {
            use_type_invariant(&*self);
        }
        if self.pipes_taken {
            return Err(VmmProcessError::PipesAlreadyTaken);
        }
        self.pipes_taken = true;
        Ok(())
    }

    /// Record the exit status that waiting for the child yielded: the process becomes exited when
    /// it succeeded and crashed otherwise. Allowed in the Started state and once terminated.
    pub fn exited(&mut self, status: ExitStatus)
        requires
            old(self).spec_has_child(),
        ensures
            final(self).spec_state() == observed_state(old(self).spec_state(), true, Some(status)),
            is_terminated(final(self).spec_state()),
            final(self).spec_has_child(),
            final(self).spec_pipes_taken() == old(self).spec_pipes_taken(),
            final(self).spec_socket_path() == old(self).spec_socket_path(),
    {
        self.state(Some(status));
    }
}


/// The position of a state in the lifecycle: awaiting preparation, awaiting the start, started,
/// terminated.
pub open spec fn lifecycle_rank(state: VmmProcessState) -> int {
    match state {
        VmmProcessState::AwaitingPrepare => 0,
        VmmProcessState::AwaitingStart => 1,
        VmmProcessState::Started => 2,
        _ => 3,
    }
}

/// Observing a process never moves it back in its lifecycle, and a terminated process stays
/// terminated whatever is observed: a process has a child exactly when it started or terminated.
pub proof fn lemma_observation_moves_forward(state: VmmProcessState, has_child: bool, termination: Option<ExitStatus>)
    requires
        has_child <==> (state matches VmmProcessState::Started || is_terminated(state)),
    ensures
        lifecycle_rank(observed_state(state, has_child, termination)) >= lifecycle_rank(state),
        is_terminated(state) ==> is_terminated(observed_state(state, has_child, termination)),
{
}

/// A termination that the process observes decides its state: an exit status of success makes it
/// exited, any other status makes it crashed with that status.
pub proof fn lemma_termination_decides_state(state: VmmProcessState, status: ExitStatus)
    ensures
        status.spec_success() ==> observed_state(state, true, Some(status)) == VmmProcessState::Exited,
        !status.spec_success() ==> observed_state(state, true, Some(status)) == VmmProcessState::Crashed(status),
        observed_state(state, true, None) == state,
        observed_state(state, false, Some(status)) == state,
{
}

} // verus!
