//! The protocol of a proxy filesystem backend: the requests that one thread sends to the thread
//! that runs the proxied backend, what that thread does with each request, and how the sending
//! side matches responses to its requests and interprets them.

use std::sync::Arc;

use vstd::prelude::*;

use super::{FsBackendError, clone_arc, io_error_connection_refused, io_error_other};

verus! {

/// `uuid::Uuid::new_v4`, as the number that the random identifier holds. The identifier is
/// random, so nothing is stated of it.
#[verifier::external_body]
fn new_request_id() -> u128 {
    uuid::Uuid::new_v4().as_u128()
}

/// What a request asks of the proxy thread.
#[derive(Debug, Clone, PartialEq, Eq)]
pub enum ProxyRequestBody {
    Ping,
    Stop,
    CheckExists(String),
    RemoveFile(String),
    CreateDirAll(String),
    CreateFile(String),
    Copy { source_path: String, destination_path: String },
    WriteFile { path: String, content: String },
    RenameFile { source_path: String, destination_path: String },
    HardLink { source_path: String, destination_path: String },
    RemoveDirAll(String),
}

/// A request with the identifier that its response will carry.
#[derive(Debug, Clone, PartialEq, Eq)]
pub struct ProxyRequest {
    pub id: u128,
    pub body: ProxyRequestBody,
}

/// What the proxy thread answers.
#[derive(Debug)]
pub enum ProxyResponseBody {
    Pong,
    Stopped,
    BoolAction(Result<bool, Arc<std::io::Error>>),
    UnitAction(Result<(), Arc<std::io::Error>>),
}

impl Clone for ProxyResponseBody {
    /// The same answer; an error is shared, not copied.
    fn clone(&self) -> (r: Self)
        ensures
            r == *self,
    {
        match self {
            ProxyResponseBody::Pong => ProxyResponseBody::Pong,
            ProxyResponseBody::Stopped => ProxyResponseBody::Stopped,
            ProxyResponseBody::BoolAction(Ok(b)) => ProxyResponseBody::BoolAction(Ok(*b)),
            ProxyResponseBody::BoolAction(Err(e)) => ProxyResponseBody::BoolAction(Err(clone_arc(e))),
            ProxyResponseBody::UnitAction(Ok(u)) => ProxyResponseBody::UnitAction(Ok(*u)),
            ProxyResponseBody::UnitAction(Err(e)) => ProxyResponseBody::UnitAction(Err(clone_arc(e))),
        }
    }
}

/// A response with the identifier of the request it answers.
#[derive(Debug, Clone)]
pub struct ProxyResponse {
    pub id: u128,
    pub body: ProxyResponseBody,
}

/// An operation on the proxied backend whose outcome carries no value.
#[derive(Debug, Clone, PartialEq, Eq)]
pub enum UnitOperation {
    RemoveFile(String),
    CreateDirAll(String),
    CreateFile(String),
    Copy { source_path: String, destination_path: String },
    WriteFile { path: String, content: String },
    RenameFile { source_path: String, destination_path: String },
    HardLink { source_path: String, destination_path: String },
    RemoveDirAll(String),
}

/// What the proxy thread does with one request.
#[derive(Debug, Clone)]
pub enum ProxyServerAction {
    /// Send this response from a spawned task.
    SpawnResponse(ProxyResponse),
    /// Send this response, then stop serving requests.
    RespondAndStop(ProxyResponse),
    /// On a spawned task, check whether the path exists and answer the request with the outcome.
    CheckExists { id: u128, path: String },
    /// On a spawned task, perform the operation and answer the request with the outcome.
    Perform { id: u128, operation: UnitOperation },
}

/// The action for a request: a ping is answered with a pong, a stop request with "stopped" before
/// serving ends, an existence check and every other operation are performed on the backend.
pub open spec fn spec_action(request: ProxyRequest) -> ProxyServerAction {
    let id = request.id;
    match request.body {
        ProxyRequestBody::Ping => ProxyServerAction::SpawnResponse(ProxyResponse { id, body: ProxyResponseBody::Pong }),
        ProxyRequestBody::Stop => ProxyServerAction::RespondAndStop(ProxyResponse { id, body: ProxyResponseBody::Stopped }),
        ProxyRequestBody::CheckExists(path) => ProxyServerAction::CheckExists { id, path },
        ProxyRequestBody::RemoveFile(path) => ProxyServerAction::Perform { id, operation: UnitOperation::RemoveFile(path) },
        ProxyRequestBody::CreateDirAll(path) => ProxyServerAction::Perform { id, operation: UnitOperation::CreateDirAll(path) },
        ProxyRequestBody::CreateFile(path) => ProxyServerAction::Perform { id, operation: UnitOperation::CreateFile(path) },
        ProxyRequestBody::Copy { source_path, destination_path } => ProxyServerAction::Perform {
            id,
            operation: UnitOperation::Copy { source_path, destination_path },
        },
        ProxyRequestBody::WriteFile { path, content } => ProxyServerAction::Perform {
            id,
            operation: UnitOperation::WriteFile { path, content },
        },
        ProxyRequestBody::RenameFile { source_path, destination_path } => ProxyServerAction::Perform {
            id,
            operation: UnitOperation::RenameFile { source_path, destination_path },
        },
        ProxyRequestBody::HardLink { source_path, destination_path } => ProxyServerAction::Perform {
            id,
            operation: UnitOperation::HardLink { source_path, destination_path },
        },
        ProxyRequestBody::RemoveDirAll(path) => ProxyServerAction::Perform { id, operation: UnitOperation::RemoveDirAll(path) },
    }
}

/// The identifier of the request that an action answers.
pub open spec fn action_id(action: ProxyServerAction) -> u128 {
    match action {
        ProxyServerAction::SpawnResponse(response) => response.id,
        ProxyServerAction::RespondAndStop(response) => response.id,
        ProxyServerAction::CheckExists { id, .. } => id,
        ProxyServerAction::Perform { id, .. } => id,
    }
}

/// The serving side of the proxy: it serves requests until it is asked to stop.
#[derive(Debug)]
pub struct ProxyServer {
    stopped: bool,
}

impl ProxyServer {
    /// Whether a stop request was served.
    pub closed spec fn spec_stopped(self) -> bool {
        self.stopped
    }

    /// A server that serves requests.
    pub fn new() -> (r: Self)
        ensures
            !r.spec_stopped(),
    {
        ProxyServer { stopped: false }
    }

    /// Whether a stop request was served, after which no request is served any more.
    pub fn is_stopped(&self) -> (r: bool)
        ensures
            r == self.spec_stopped(),
    {
        self.stopped
    }

    /// Decide what to do with a request; serving stops after a stop request.
    pub fn handle(&mut self, request: ProxyRequest) -> (r: ProxyServerAction)
        requires
            !old(self).spec_stopped(),
        ensures
            r == spec_action(request),
            final(self).spec_stopped() == (request.body == ProxyRequestBody::Stop),
    {
        let id = request.id;
        match request.body {
            ProxyRequestBody::Ping => ProxyServerAction::SpawnResponse(ProxyResponse { id, body: ProxyResponseBody::Pong }),
            ProxyRequestBody::Stop => {
                self.stopped = true;
                ProxyServerAction::RespondAndStop(ProxyResponse { id, body: ProxyResponseBody::Stopped })
            },
            ProxyRequestBody::CheckExists(path) => ProxyServerAction::CheckExists { id, path },
            ProxyRequestBody::RemoveFile(path) => ProxyServerAction::Perform { id, operation: UnitOperation::RemoveFile(path) },
            ProxyRequestBody::CreateDirAll(path) => ProxyServerAction::Perform {
                id,
                operation: UnitOperation::CreateDirAll(path),
            },
            ProxyRequestBody::CreateFile(path) => ProxyServerAction::Perform { id, operation: UnitOperation::CreateFile(path) },
            ProxyRequestBody::Copy { source_path, destination_path } => ProxyServerAction::Perform {
                id,
                operation: UnitOperation::Copy { source_path, destination_path },
            },
            ProxyRequestBody::WriteFile { path, content } => ProxyServerAction::Perform {
                id,
                operation: UnitOperation::WriteFile { path, content },
            },
            ProxyRequestBody::RenameFile { source_path, destination_path } => ProxyServerAction::Perform {
                id,
                operation: UnitOperation::RenameFile { source_path, destination_path },
            },
            ProxyRequestBody::HardLink { source_path, destination_path } => ProxyServerAction::Perform {
                id,
                operation: UnitOperation::HardLink { source_path, destination_path },
            },
            ProxyRequestBody::RemoveDirAll(path) => ProxyServerAction::Perform {
                id,
                operation: UnitOperation::RemoveDirAll(path),
            },
        }
    }
}

/// The response to an existence check with the given outcome, an error made cloneable.
pub fn bool_response(id: u128, outcome: Result<bool, FsBackendError>) -> (r: ProxyResponse)
    ensures
        r.id == id,
        match outcome {
            Ok(b) => r.body == ProxyResponseBody::BoolAction(Ok(b)),
            Err(FsBackendError::Owned(e)) => r.body matches ProxyResponseBody::BoolAction(Err(arc)) && *arc == e,
            Err(FsBackendError::Arced(a)) => r.body == ProxyResponseBody::BoolAction(Err(a)),
        },
{
    let body = match outcome {
        Ok(b) => ProxyResponseBody::BoolAction(Ok(b)),
        Err(e) => ProxyResponseBody::BoolAction(Err(e.into_cloneable())),
    };
    ProxyResponse { id, body }
}

/// The response to an operation with the given outcome, an error made cloneable.
pub fn unit_response(id: u128, outcome: Result<(), FsBackendError>) -> (r: ProxyResponse)
    ensures
        r.id == id,
        match outcome {
            Ok(_) => r.body == ProxyResponseBody::UnitAction(Ok(())),
            Err(FsBackendError::Owned(e)) => r.body matches ProxyResponseBody::UnitAction(Err(arc)) && *arc == e,
            Err(FsBackendError::Arced(a)) => r.body == ProxyResponseBody::UnitAction(Err(a)),
        },
{
    let body = match outcome {
        Ok(_) => ProxyResponseBody::UnitAction(Ok(())),
        Err(e) => ProxyResponseBody::UnitAction(Err(e.into_cloneable())),
    };
    ProxyResponse { id, body }
}

/// What a waiting request does with what the response channel yielded.
#[derive(Debug)]
pub enum RequestStep<T> {
    /// The response to the request arrived with this body.
    Done(T),
    /// The response channel failed; the request fails.
    ChannelFailed,
    /// A response to another request arrived; keep waiting.
    Continue,
}

/// A request that awaits its response, known by its identifier.
#[derive(Debug, Clone, Copy, PartialEq, Eq)]
pub struct PendingRequest {
    pub id: u128,
}

impl PendingRequest {
    /// A request with a fresh random identifier.
    pub fn new() -> (r: PendingRequest) {
        PendingRequest { id: new_request_id() }
    }

    /// The request to send to the proxy thread: this identifier with the given body.
    pub fn request(&self, body: ProxyRequestBody) -> (r: ProxyRequest)
        ensures
            r.id == self.id,
            r.body == body,
    {
        ProxyRequest { id: self.id, body }
    }

    /// Decide on what the response channel yielded (`None` when it failed): a response with this
    /// request's identifier completes it, another response is skipped.
    pub fn on_receive<T>(&self, received: Option<(u128, T)>) -> (r: RequestStep<T>)
        ensures
            match received {
                None => r is ChannelFailed,
                Some((id, body)) => if id == self.id { r == RequestStep::Done(body) } else { r is Continue },
            },
    {
        match received {
            None => RequestStep::ChannelFailed,
            Some((id, body)) => {
                if id == self.id {
                    RequestStep::Done(body)
                } else {
                    RequestStep::Continue
                }
            },
        }
    }
}

/// The error of a request that could not be sent to the proxy thread.
pub fn send_failed_error() -> (r: FsBackendError)
    ensures
        r is Owned,
{
    FsBackendError::Owned(io_error_connection_refused("Request send to the proxy thread failed"))
}

/// The error of a request whose response could not be received from the proxy thread.
pub fn recv_failed_error() -> (r: FsBackendError)
    ensures
        r is Owned,
{
    FsBackendError::Owned(io_error_connection_refused("Response recv from the proxy thread failed"))
}

/// The error of a response of the wrong kind.
fn wrong_response_error() -> (r: FsBackendError)
    ensures
        r is Owned,
{
    FsBackendError::Owned(io_error_other("An unexpected response was emitted by the proxy thread"))
}

/// The outcome of a ping: a pong succeeds, any other response is wrong.
pub fn ping_outcome(body: ProxyResponseBody) -> (r: Result<(), FsBackendError>)
    ensures
        body is Pong ==> r is Ok,
        !(body is Pong) ==> r matches Err(FsBackendError::Owned(_)),
{
    match body {
        ProxyResponseBody::Pong => Ok(()),
        _ => Err(wrong_response_error()),
    }
}

/// The outcome of a stop request: "stopped" succeeds, any other response is wrong.
pub fn stop_outcome(body: ProxyResponseBody) -> (r: Result<(), FsBackendError>)
    ensures
        body is Stopped ==> r is Ok,
        !(body is Stopped) ==> r matches Err(FsBackendError::Owned(_)),
{
    match body {
        ProxyResponseBody::Stopped => Ok(()),
        _ => Err(wrong_response_error()),
    }
}

/// The outcome of an existence check: the outcome that the response carries, its error arced; any
/// other response is wrong.
pub fn bool_outcome(body: ProxyResponseBody) -> (r: Result<bool, FsBackendError>)
    ensures
        match body {
            ProxyResponseBody::BoolAction(Ok(b)) => r == Ok::<bool, FsBackendError>(b),
            ProxyResponseBody::BoolAction(Err(e)) => r == Err::<bool, FsBackendError>(FsBackendError::Arced(e)),
            _ => r matches Err(FsBackendError::Owned(_)),
        },
{
    match body {
        ProxyResponseBody::BoolAction(result) => match result {
            Ok(b) => Ok(b),
            Err(e) => Err(FsBackendError::Arced(e)),
        },
        _ => Err(wrong_response_error()),
    }
}

/// The outcome of an operation: the outcome that the response carries, its error arced; any other
/// response is wrong.
pub fn unit_outcome(body: ProxyResponseBody) -> (r: Result<(), FsBackendError>)
    ensures
        match body {
            ProxyResponseBody::UnitAction(Ok(_)) => r is Ok,
            ProxyResponseBody::UnitAction(Err(e)) => r == Err::<(), FsBackendError>(FsBackendError::Arced(e)),
            _ => r matches Err(FsBackendError::Owned(_)),
        },
{
    match body {
        ProxyResponseBody::UnitAction(result) => match result {
            Ok(_) => Ok(()),
            Err(e) => Err(FsBackendError::Arced(e)),
        },
        _ => Err(wrong_response_error()),
    }
}


/// Every action of the proxy thread answers the request it was decided for, and only a stop
/// request ends the serving.
pub proof fn lemma_actions_answer_their_request(request: ProxyRequest)
    ensures
        action_id(spec_action(request)) == request.id,
        spec_action(request) is RespondAndStop <==> request.body == ProxyRequestBody::Stop,
{
}

} // verus!
