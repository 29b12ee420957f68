//! The actions by which a VM is shut down: a method, whether it counts as graceful, an optional
//! timeout and whether a failed attempt is reverted.

use core::time::Duration;

use vstd::prelude::*;

verus! {

/// A method of shutting down a VM.
#[derive(Debug, Clone, Copy, PartialEq, Eq, Structural)]
pub enum VmShutdownMethod {
    SendSigkill,
    PauseThenKill,
    SendCtrlAltDel,
    WriteToSerial,
}

/// One shutdown attempt: its method, an optional timeout, whether it counts as graceful and
/// whether a failed attempt is reverted.
#[derive(Debug)]
pub struct VmShutdownAction {
    method: VmShutdownMethod,
    timeout: Option<Duration>,
    graceful: bool,
    attempt_revert: bool,
}

impl VmShutdownAction {
    /// The method.
    pub closed spec fn spec_method(self) -> VmShutdownMethod {
        self.method
    }

    /// The timeout, if any.
    pub closed spec fn spec_timeout(self) -> Option<Duration> {
        self.timeout
    }

    /// Whether the attempt counts as graceful.
    pub closed spec fn spec_graceful(self) -> bool {
        self.graceful
    }

    /// Whether a failed attempt is reverted.
    pub closed spec fn spec_attempt_revert(self) -> bool {
        self.attempt_revert
    }

    /// An attempt with the given method, no timeout, counted as graceful and not reverted.
    pub fn new(method: VmShutdownMethod) -> (r: Self)
        ensures
            r.spec_method() == method,
            r.spec_timeout() is None,
            r.spec_graceful(),
            !r.spec_attempt_revert(),
    {
        VmShutdownAction { method, timeout: None, graceful: true, attempt_revert: false }
    }

    /// Set whether the attempt counts as graceful.
    pub fn graceful(self, graceful: bool) -> (r: Self)
        ensures
            r.spec_graceful() == graceful,
            r.spec_method() == self.spec_method(),
            r.spec_timeout() == self.spec_timeout(),
            r.spec_attempt_revert() == self.spec_attempt_revert(),
    {
        VmShutdownAction { graceful, ..self }
    }

    /// Set the timeout.
    pub fn timeout(self, duration: Duration) -> (r: Self)
        ensures
            r.spec_timeout() == Some(duration),
            r.spec_method() == self.spec_method(),
            r.spec_graceful() == self.spec_graceful(),
            r.spec_attempt_revert() == self.spec_attempt_revert(),
    {
        VmShutdownAction { timeout: Some(duration), ..self }
    }

    /// Set whether a failed attempt is reverted.
    pub fn attempt_revert(self, attempt_revert: bool) -> (r: Self)
        ensures
            r.spec_attempt_revert() == attempt_revert,
            r.spec_method() == self.spec_method(),
            r.spec_timeout() == self.spec_timeout(),
            r.spec_graceful() == self.spec_graceful(),
    {
        VmShutdownAction { attempt_revert, ..self }
    }

    /// The method.
    pub fn get_method(&self) -> (r: VmShutdownMethod)
        ensures
            r == self.spec_method(),
    {
        self.method
    }

    /// The timeout, if any.
    pub fn get_timeout(&self) -> (r: Option<Duration>)
        ensures
            r == self.spec_timeout(),
    {
        self.timeout
    }

    /// Whether the attempt counts as graceful.
    pub fn is_graceful(&self) -> (r: bool)
        ensures
            r == self.spec_graceful(),
    {
        self.graceful
    }

    /// Whether a failed attempt is reverted.
    pub fn is_attempt_revert(&self) -> (r: bool)
        ensures
            r == self.spec_attempt_revert(),
    {
        self.attempt_revert
    }
}

} // verus!
