//! Errors of filesystem backends, and the request/response protocol through which a backend that
//! runs on its own thread is reached from another one.

use std::sync::Arc;

use vstd::prelude::*;

pub mod proxy;
pub mod thread_bridge;

verus! {

#[verifier::external_type_specification]
#[verifier::external_body]
pub struct ExIoError(std::io::Error);

/// `std::io::Error::new` with the `ConnectionRefused` kind and the given message. Nothing is
/// stated of the error value, which stays opaque.
#[verifier::external_body]
pub(crate) fn io_error_connection_refused(message: &str) -> std::io::Error {
    std::io::Error::new(std::io::ErrorKind::ConnectionRefused, message)
}

/// `std::io::Error::other` with the given message. Nothing is stated of the error value, which
/// stays opaque.
#[verifier::external_body]
pub(crate) fn io_error_other(message: &str) -> std::io::Error {
    std::io::Error::other(message.to_owned())
}

/// `Clone::clone` of an [Arc]: another pointer to the same error.
#[verifier::external_body]
pub(crate) fn clone_arc(arc: &Arc<std::io::Error>) -> (r: Arc<std::io::Error>)
    ensures
        *r == **arc,
{
    Arc::clone(arc)
}

/// An error emitted by a filesystem backend, being either an owned or an [Arc] value of a
/// [std::io::Error].
#[derive(Debug)]
pub enum FsBackendError {
    Owned(std::io::Error),
    Arced(Arc<std::io::Error>),
}

impl FsBackendError {
    /// Consume this error into an [Arc] that can further be cloned: an owned error is put into a
    /// new [Arc], an arced one is handed out as it is.
    pub fn into_cloneable(self) -> (r: Arc<std::io::Error>)
        ensures
            match self {
                FsBackendError::Owned(error) => *r == error,
                FsBackendError::Arced(arc) => r == arc,
            },
    {
        match self {
            FsBackendError::Owned(error) => Arc::new(error),
            FsBackendError::Arced(arc) => arc,
        }
    }

    /// The underlying I/O error.
    pub fn io_error(&self) -> (r: &std::io::Error)
        ensures
            match self {
                FsBackendError::Owned(error) => *r == error,
                FsBackendError::Arced(arc) => *r == **arc,
            },
    {
        match self {
            FsBackendError::Owned(owned_value) => owned_value,
            FsBackendError::Arced(arc) => &**arc,
        }
    }
}

} // verus!
