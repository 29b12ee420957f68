use std::sync::Arc;

use fctools::fs_backend::proxy::{
    bool_outcome, bool_response, ping_outcome, stop_outcome, unit_outcome, unit_response, PendingRequest,
    ProxyRequest, ProxyRequestBody, ProxyResponseBody, ProxyServer, ProxyServerAction, RequestStep, UnitOperation,
};
use fctools::fs_backend::thread_bridge::{
    ping_outcome as bridge_ping_outcome, terminate_outcome, BridgeRequest, BridgeRequestBody, BridgeResponse,
    BridgeResponseBody, BridgeServer, BridgeServerAction,
};
use fctools::fs_backend::FsBackendError;

#[test]
fn proxy_server_dispatches_and_stops() {
    let mut server = ProxyServer::new();
    assert!(!server.is_stopped());
    match server.handle(ProxyRequest { id: 7, body: ProxyRequestBody::Ping }) {
        ProxyServerAction::SpawnResponse(response) => {
            assert_eq!(response.id, 7);
            assert!(matches!(response.body, ProxyResponseBody::Pong));
        }
        other => panic!("unexpected {other:?}"),
    }
    match server.handle(ProxyRequest { id: 8, body: ProxyRequestBody::CheckExists("/a".to_owned()) }) {
        ProxyServerAction::CheckExists { id, path } => assert_eq!((id, path.as_str()), (8, "/a")),
        other => panic!("unexpected {other:?}"),
    }
    let copy = ProxyRequestBody::Copy { source_path: "/a".to_owned(), destination_path: "/b".to_owned() };
    match server.handle(ProxyRequest { id: 9, body: copy }) {
        ProxyServerAction::Perform { id, operation } => {
            assert_eq!(id, 9);
            assert_eq!(operation, UnitOperation::Copy { source_path: "/a".to_owned(), destination_path: "/b".to_owned() });
        }
        other => panic!("unexpected {other:?}"),
    }
    assert!(!server.is_stopped());
    assert!(matches!(
        server.handle(ProxyRequest { id: 10, body: ProxyRequestBody::Stop }),
        ProxyServerAction::RespondAndStop(_)
    ));
    assert!(server.is_stopped());
}

#[test]
fn responses_carry_outcomes() {
    let response = unit_response(3, Err(FsBackendError::Owned(std::io::Error::other("boom"))));
    assert_eq!(response.id, 3);
    match response.body.clone() {
        ProxyResponseBody::UnitAction(Err(error)) => assert_eq!(error.to_string(), "boom"),
        other => panic!("unexpected {other:?}"),
    }
    match unit_outcome(response.body) {
        Err(FsBackendError::Arced(error)) => assert_eq!(error.to_string(), "boom"),
        other => panic!("unexpected {other:?}"),
    }
    assert!(matches!(bool_outcome(bool_response(1, Ok(true)).body), Ok(true)));
    let arced = Arc::new(std::io::Error::other("shared"));
    match bool_response(2, Err(FsBackendError::Arced(arced.clone()))).body {
        ProxyResponseBody::BoolAction(Err(error)) => assert!(Arc::ptr_eq(&error, &arced)),
        other => panic!("unexpected {other:?}"),
    }
    assert!(ping_outcome(ProxyResponseBody::Pong).is_ok());
    assert!(matches!(ping_outcome(ProxyResponseBody::Stopped), Err(FsBackendError::Owned(_))));
    assert!(stop_outcome(ProxyResponseBody::Stopped).is_ok());
    assert!(unit_outcome(ProxyResponseBody::Pong).is_err());
    assert_eq!(FsBackendError::Owned(std::io::Error::other("x")).io_error().to_string(), "x");
    assert_eq!(FsBackendError::Owned(std::io::Error::other("y")).into_cloneable().to_string(), "y");
}

#[test]
fn pending_requests_wait_for_their_own_response() {
    let pending = PendingRequest::new();
    let request = pending.request(ProxyRequestBody::RemoveFile("/f".to_owned()));
    assert_eq!(request.id, pending.id);
    assert!(matches!(pending.on_receive(Some((pending.id.wrapping_add(1), 5))), RequestStep::Continue));
    assert!(matches!(pending.on_receive(Some((pending.id, 5))), RequestStep::Done(5)));
    assert!(matches!(pending.on_receive::<u8>(None), RequestStep::ChannelFailed));
    assert_ne!(PendingRequest::new().id, PendingRequest::new().id);
}

#[test]
fn bridge_server_answers_pings_until_terminated() {
    let mut server = BridgeServer::new();
    assert_eq!(
        server.handle(BridgeRequest { id: 1, body: BridgeRequestBody::Ping }),
        BridgeServerAction::SpawnResponse(BridgeResponse { id: 1, body: BridgeResponseBody::Pong })
    );
    assert!(!server.is_stopped());
    assert_eq!(
        server.handle(BridgeRequest { id: 2, body: BridgeRequestBody::Terminate }),
        BridgeServerAction::RespondAndStop(BridgeResponse { id: 2, body: BridgeResponseBody::Terminated })
    );
    assert!(server.is_stopped());
    assert!(bridge_ping_outcome(BridgeResponseBody::Pong).is_ok());
    assert!(bridge_ping_outcome(BridgeResponseBody::Terminated).is_err());
    assert!(terminate_outcome(BridgeResponseBody::Terminated).is_ok());
}
