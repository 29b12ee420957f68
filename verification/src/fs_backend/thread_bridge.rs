//! The protocol of a thread bridge: a server thread that only answers pings and a request to
//! terminate, reached from another thread by requests that its responses are matched to.

use vstd::prelude::*;

use super::{FsBackendError, io_error_connection_refused, io_error_other};

verus! {

/// What a request asks of the bridge server.
#[derive(Debug, Clone, Copy, PartialEq, Eq)]
pub enum BridgeRequestBody {
    Ping,
    Terminate,
}

/// A request with the identifier that its response will carry.
#[derive(Debug, Clone, Copy, PartialEq, Eq)]
pub struct BridgeRequest {
    pub id: u128,
    pub body: BridgeRequestBody,
}

/// What the bridge server answers.
#[derive(Debug, Clone, Copy, PartialEq, Eq)]
pub enum BridgeResponseBody {
    Pong,
    Terminated,
}

/// A response with the identifier of the request it answers.
#[derive(Debug, Clone, Copy, PartialEq, Eq)]
pub struct BridgeResponse {
    pub id: u128,
    pub body: BridgeResponseBody,
}

/// What the bridge server does with one request.
#[derive(Debug, Clone, Copy, PartialEq, Eq)]
pub enum BridgeServerAction {
    /// Send this response from a spawned task.
    SpawnResponse(BridgeResponse),
    /// Send this response, then stop serving requests.
    RespondAndStop(BridgeResponse),
}

/// The serving side of the bridge: it answers pings until it is asked to terminate.
#[derive(Debug)]
pub struct BridgeServer {
    stopped: bool,
}

impl BridgeServer {
    /// Whether a request to terminate was served.
    pub closed spec fn spec_stopped(self) -> bool {
        self.stopped
    }

    /// A server that serves requests.
    pub fn new() -> (r: Self)
        ensures
            !r.spec_stopped(),
    {
        BridgeServer { stopped: false }
    }

    /// Whether a request to terminate was served, after which no request is served any more.
    pub fn is_stopped(&self) -> (r: bool)
        ensures
            r == self.spec_stopped(),
    {
        self.stopped
    }

    /// Decide what to do with a request: a ping is answered with a pong, a request to terminate
    /// with "terminated", after which serving stops.
    pub fn handle(&mut self, request: BridgeRequest) -> (r: BridgeServerAction)
        requires
            !old(self).spec_stopped(),
        ensures
            request.body == BridgeRequestBody::Ping ==> r == BridgeServerAction::SpawnResponse(
                BridgeResponse { id: request.id, body: BridgeResponseBody::Pong },
            ) && !final(self).spec_stopped(),
            request.body == BridgeRequestBody::Terminate ==> r == BridgeServerAction::RespondAndStop(
                BridgeResponse { id: request.id, body: BridgeResponseBody::Terminated },
            ) && final(self).spec_stopped(),
    {
        match request.body {
            BridgeRequestBody::Ping => BridgeServerAction::SpawnResponse(
                BridgeResponse { id: request.id, body: BridgeResponseBody::Pong },
            ),
            BridgeRequestBody::Terminate => {
                self.stopped = true;
                BridgeServerAction::RespondAndStop(BridgeResponse { id: request.id, body: BridgeResponseBody::Terminated })
            },
        }
    }
}

/// The error of a request that could not be sent to the bridge thread.
pub fn send_failed_error() -> (r: FsBackendError)
    ensures
        r is Owned,
{
    FsBackendError::Owned(io_error_connection_refused("Request send to bridge thread failed"))
}

/// The error of a request whose response could not be received from the bridge thread.
pub fn recv_failed_error() -> (r: FsBackendError)
    ensures
        r is Owned,
{
    FsBackendError::Owned(io_error_connection_refused("Response recv from the bridge thread failed"))
}

/// The error of a response of the wrong kind.
fn wrong_response_error() -> (r: FsBackendError)
    ensures
        r is Owned,
{
    FsBackendError::Owned(io_error_other("An unexpected response was emitted by the bridge server"))
}

/// The outcome of a ping: a pong succeeds, any other response is wrong.
pub fn ping_outcome(body: BridgeResponseBody) -> (r: Result<(), FsBackendError>)
    ensures
        body == BridgeResponseBody::Pong ==> r is Ok,
        body != BridgeResponseBody::Pong ==> r matches Err(FsBackendError::Owned(_)),
{
    match body {
        BridgeResponseBody::Pong => Ok(()),
        _ => Err(wrong_response_error()),
    }
}

/// The outcome of a request to terminate: "terminated" succeeds, any other response is wrong.
pub fn terminate_outcome(body: BridgeResponseBody) -> (r: Result<(), FsBackendError>)
    ensures
        body == BridgeResponseBody::Terminated ==> r is Ok,
        body != BridgeResponseBody::Terminated ==> r matches Err(FsBackendError::Owned(_)),
{
    match body {
        BridgeResponseBody::Terminated => Ok(()),
        _ => Err(wrong_response_error()),
    }
}

} // verus!
