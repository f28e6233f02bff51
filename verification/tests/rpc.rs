use astrix::ext::rpc_notify_command;
use astrix::interface::{not_implemented_response, AstrixdPayloadOps, GrpcServerError, Interface, Method, ServingMethod};
use astrix::notify::{
    BlockAddedScope, Command, FinalityConflictResolvedScope, FinalityConflictScope, NewBlockTemplateScope,
    PruningPointUtxoSetOverrideScope, Scope, SinkBlueScoreChangedScope, UtxosChangedScope, VirtualChainChangedScope,
    VirtualDaaScoreChangedScope,
};
use astrix::payload_type::{AstrixdMessagePayload, AstrixdMessagePayloadType};
use astrix::protowire::astrixd_request::Payload as RequestPayload;
use astrix::protowire::astrixd_response::Payload as ResponsePayload;
use astrix::protowire::{
    AstrixdRequest, AstrixdResponse, NotifyFinalityConflictRequestMessage, ResponseMessage, RpcError, NotifyUtxosChangedRequestMessage,
    NotifyVirtualChainChangedRequestMessage, StopNotifyingUtxosChangedRequestMessage,
};

fn all_scopes() -> Vec<Scope> {
    vec![
        Scope::BlockAdded(BlockAddedScope {}),
        Scope::NewBlockTemplate(NewBlockTemplateScope {}),
        Scope::VirtualChainChanged(VirtualChainChangedScope { include_accepted_transaction_ids: true }),
        Scope::FinalityConflict(FinalityConflictScope {}),
        Scope::FinalityConflictResolved(FinalityConflictResolvedScope {}),
        Scope::UtxosChanged(UtxosChangedScope { addresses: vec!["astrix:qz0000".to_string(), "astrix:qr1111".to_string()] }),
        Scope::SinkBlueScoreChanged(SinkBlueScoreChangedScope {}),
        Scope::VirtualDaaScoreChanged(VirtualDaaScoreChangedScope {}),
        Scope::PruningPointUtxoSetOverride(PruningPointUtxoSetOverrideScope {}),
    ]
}

#[test]
fn notification_requests_are_subscriptions() {
    for scope in all_scopes() {
        for command in [Command::Start, Command::Stop] {
            let request = AstrixdRequest::from_notification_type(&scope, command);
            assert_eq!(request.id, 0);
            assert!(request.is_subscription());
        }
    }
}

#[test]
fn notification_request_contents() {
    assert_eq!(rpc_notify_command(Command::Start), 0);
    assert_eq!(rpc_notify_command(Command::Stop), 1);
    let scope = Scope::VirtualChainChanged(VirtualChainChangedScope { include_accepted_transaction_ids: true });
    assert_eq!(
        RequestPayload::from_notification_type(&scope, Command::Stop),
        RequestPayload::NotifyVirtualChainChangedRequest(NotifyVirtualChainChangedRequestMessage {
            include_accepted_transaction_ids: true,
            command: 1
        })
    );
    let scope = Scope::FinalityConflictResolved(FinalityConflictResolvedScope {});
    assert_eq!(
        RequestPayload::from_notification_type(&scope, Command::Start),
        RequestPayload::NotifyFinalityConflictRequest(NotifyFinalityConflictRequestMessage { command: 0 })
    );
    let scope = Scope::UtxosChanged(UtxosChangedScope { addresses: vec!["a".to_string(), "b".to_string()] });
    assert_eq!(
        RequestPayload::from_notification_type(&scope, Command::Start),
        RequestPayload::NotifyUtxosChangedRequest(NotifyUtxosChangedRequestMessage {
            addresses: vec!["a".to_string(), "b".to_string()],
            command: 0
        })
    );
}

#[test]
fn request_classification() {
    assert!(!AstrixdRequest { id: 3, payload: None }.is_subscription());
    assert!(!AstrixdRequest { id: 3, payload: Some(RequestPayload::GetInfoRequest) }.is_subscription());
    assert!(!RequestPayload::PingRequest.is_subscription());
    assert!(RequestPayload::StopNotifyingUtxosChangedRequest(StopNotifyingUtxosChangedRequestMessage { addresses: vec![] })
        .is_subscription());
    let request: AstrixdRequest = RequestPayload::GetBlockCountRequest.into();
    assert_eq!(request, AstrixdRequest { id: 0, payload: Some(RequestPayload::GetBlockCountRequest) });
}

#[test]
fn response_classification() {
    assert!(!AstrixdResponse { id: 1, payload: None }.is_notification());
    assert!(AstrixdResponse { id: 1, payload: Some(ResponsePayload::BlockAddedNotification) }.is_notification());
    assert!(ResponsePayload::FinalityConflictResolvedNotification.is_notification());
    assert!(ResponsePayload::NewBlockTemplateNotification.is_notification());
    assert!(!ResponsePayload::NotifyBlockAddedResponse(ResponseMessage { error: None }).is_notification());
    assert!(!ResponsePayload::GetInfoResponse(ResponseMessage { error: None }).is_notification());
}

#[test]
fn message_payload_types() {
    let p = AstrixdMessagePayload::Addresses(vec![1, 2]);
    let t: AstrixdMessagePayloadType = (&p).into();
    assert_eq!(t, AstrixdMessagePayloadType::Addresses);
    assert_eq!(t.as_u8(), 0);
    let p = AstrixdMessagePayload::Ping(vec![]);
    assert_eq!(AstrixdMessagePayloadType::from(&p), AstrixdMessagePayloadType::Ping);
    assert_eq!(AstrixdMessagePayloadType::Ping.as_u8(), 10);
    let p = AstrixdMessagePayload::RequestNextPruningPointAndItsAnticoneBlocks(vec![9]);
    let t = AstrixdMessagePayloadType::from(&p);
    assert_eq!(t, AstrixdMessagePayloadType::RequestNextPruningPointAndItsAnticoneBlocks);
    assert_eq!(t.as_u8(), 42);
}

fn m(name: &'static str) -> Method<&'static str, u8> {
    Method::with_properties(name, 1, 1, 0)
}

/// The name of the declared method serving `op`, or "not implemented" for the fallback.
fn served(interface: &Interface<&'static str, &'static str, u8>, op: AstrixdPayloadOps) -> (&'static str, usize, usize, u8) {
    match interface.get_method(&op) {
        ServingMethod::Declared(method) => (method.method_fn, method.tasks, method.queue_size, method.routing_policy),
        ServingMethod::NotImplemented => ("not implemented", 0, 0, 0),
    }
}

#[test]
fn interface_routes_methods() {
    let mut interface: Interface<&'static str, &'static str, u8> = Interface::new("ctx");
    assert_eq!(*interface.server_ctx(), "ctx");
    assert_eq!(served(&interface, AstrixdPayloadOps::GetInfo).0, "not implemented");
    interface.method(AstrixdPayloadOps::GetInfo, m("info"));
    interface.method(AstrixdPayloadOps::Ping, m("ping"));
    assert_eq!(served(&interface, AstrixdPayloadOps::GetInfo).0, "info");
    assert_eq!(*m("ping").method_fn(), "ping");
    assert_eq!(served(&interface, AstrixdPayloadOps::Ping).0, "ping");
    assert_eq!(served(&interface, AstrixdPayloadOps::Shutdown).0, "not implemented");
    interface.replace_method(AstrixdPayloadOps::GetInfo, m("info2"));
    assert_eq!(served(&interface, AstrixdPayloadOps::GetInfo).0, "info2");
    interface.replace_method(AstrixdPayloadOps::Ban, m("ban"));
    assert_eq!(served(&interface, AstrixdPayloadOps::Ban).0, "ban");
    interface.set_method_properties(AstrixdPayloadOps::Ping, 4, 16, 2);
    assert_eq!(served(&interface, AstrixdPayloadOps::Ping), ("ping", 4, 16, 2));
    assert_eq!(served(&interface, AstrixdPayloadOps::GetInfo), ("info2", 1, 1, 0));
    interface.set_method_properties(AstrixdPayloadOps::Unban, 4, 16, 2);
    assert_eq!(served(&interface, AstrixdPayloadOps::Unban).0, "not implemented");
}

#[test]
fn fallback_of_a_new_interface_answers_not_implemented() {
    let interface: Interface<(), &'static str, u8> = Interface::new(());
    let request = AstrixdRequest { id: 9, payload: Some(RequestPayload::GetSinkRequest) };
    let serving = interface.get_method(&AstrixdPayloadOps::GetSink);
    assert!(matches!(serving, ServingMethod::NotImplemented));
    let answer = serving.fallback_answer(&request).unwrap().unwrap();
    assert_eq!(
        answer,
        AstrixdResponse {
            id: 9,
            payload: Some(AstrixdPayloadOps::GetSink.to_error_response(GrpcServerError::MethodNotImplemented.to_rpc_error())),
        }
    );
    assert_eq!(
        serving.fallback_answer(&AstrixdRequest { id: 9, payload: None }),
        Some(Err(GrpcServerError::InvalidRequestPayload))
    );
    let declared: ServingMethod<'_, &'static str, u8> = ServingMethod::Declared(&Method { method_fn: "x", tasks: 1, queue_size: 1, routing_policy: 0 });
    assert!(declared.fallback_answer(&request).is_none());
}

#[test]
fn not_implemented_fallback_answers() {
    let request = AstrixdRequest { id: 42, payload: Some(RequestPayload::GetInfoRequest) };
    let response = not_implemented_response(&request).unwrap();
    assert_eq!(
        response,
        AstrixdResponse {
            id: 42,
            payload: Some(ResponsePayload::GetInfoResponse(ResponseMessage {
                error: Some(RpcError { message: "method not implemented".to_string() })
            })),
        }
    );
    let scope = Scope::UtxosChanged(UtxosChangedScope { addresses: vec![] });
    let request = AstrixdRequest { id: 7, ..AstrixdRequest::from_notification_type(&scope, Command::Stop) };
    let response = not_implemented_response(&request).unwrap();
    assert_eq!(response.id, 7);
    assert!(matches!(response.payload, Some(ResponsePayload::NotifyUtxosChangedResponse(_))));
    assert_eq!(not_implemented_response(&AstrixdRequest { id: 1, payload: None }), Err(GrpcServerError::InvalidRequestPayload));
    assert_eq!(GrpcServerError::InvalidRequestPayload.to_rpc_error().message, "invalid request payload");
}

#[test]
fn operations_of_requests() {
    assert_eq!(AstrixdPayloadOps::from(&RequestPayload::PingRequest), AstrixdPayloadOps::Ping);
    assert_eq!(
        AstrixdPayloadOps::from_request_payload(&RequestPayload::StopNotifyingUtxosChangedRequest(
            StopNotifyingUtxosChangedRequestMessage { addresses: vec![] }
        )),
        AstrixdPayloadOps::StopNotifyingUtxosChanged
    );
    let error = RpcError { message: "boom".to_string() };
    assert_eq!(
        AstrixdPayloadOps::Ban.to_error_response(error.clone()),
        ResponsePayload::BanResponse(ResponseMessage { error: Some(error) })
    );
}
