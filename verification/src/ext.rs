//! Classification of RPC messages, and the subscription request for a notification scope.
use vstd::prelude::*;

use crate::interface::{request_op, response_code, response_error, AstrixdPayloadOps};
use crate::notify::{Command, Scope};
use crate::protowire::{
    astrixd_request, astrixd_response, AstrixdRequest, AstrixdResponse,
    NotifyBlockAddedRequestMessage, NotifyFinalityConflictRequestMessage,
    NotifyNewBlockTemplateRequestMessage, NotifyPruningPointUtxoSetOverrideRequestMessage,
    NotifySinkBlueScoreChangedRequestMessage, NotifyUtxosChangedRequestMessage,
    NotifyVirtualChainChangedRequestMessage, NotifyVirtualDaaScoreChangedRequestMessage,
    RPC_NOTIFY_COMMAND_START, RPC_NOTIFY_COMMAND_STOP,
};

verus! {

/// The wire code of a subscription command.
pub open spec fn command_code(command: Command) -> i32 {
    match command {
        Command::Start => RPC_NOTIFY_COMMAND_START,
        Command::Stop => RPC_NOTIFY_COMMAND_STOP,
    }
}

/// The wire code of a subscription command.
pub fn rpc_notify_command(command: Command) -> (r: i32)
    ensures
        r == command_code(command),
{
    match command {
        Command::Start => RPC_NOTIFY_COMMAND_START,
        Command::Stop => RPC_NOTIFY_COMMAND_STOP,
    }
}

/// Whether a request payload subscribes to or unsubscribes from notifications.
pub open spec fn is_subscription_payload(p: astrixd_request::Payload) -> bool {
    ||| p is NotifyBlockAddedRequest
    ||| p is NotifyVirtualChainChangedRequest
    ||| p is NotifyFinalityConflictRequest
    ||| p is NotifyUtxosChangedRequest
    ||| p is NotifySinkBlueScoreChangedRequest
    ||| p is NotifyVirtualDaaScoreChangedRequest
    ||| p is NotifyPruningPointUtxoSetOverrideRequest
    ||| p is NotifyNewBlockTemplateRequest
    ||| p is StopNotifyingUtxosChangedRequest
    ||| p is StopNotifyingPruningPointUtxoSetOverrideRequest
}

/// Whether a response payload is a notification.
pub open spec fn is_notification_payload(p: astrixd_response::Payload) -> bool {
    ||| p is BlockAddedNotification
    ||| p is VirtualChainChangedNotification
    ||| p is FinalityConflictNotification
    ||| p is FinalityConflictResolvedNotification
    ||| p is UtxosChangedNotification
    ||| p is SinkBlueScoreChangedNotification
    ||| p is VirtualDaaScoreChangedNotification
    ||| p is PruningPointUtxoSetOverrideNotification
    ||| p is NewBlockTemplateNotification
}

/// The views of a list of addresses.
pub open spec fn address_views(addresses: Seq<String>) -> Seq<Seq<char>> {
    addresses.map_values(|a: String| a@)
}

/// Whether `p` is the request that applies `command` to the notifications of `scope`:
/// finality conflicts and their resolution share one request; the scope's options and
/// addresses are carried over.
pub open spec fn is_notification_request(
    scope: Scope,
    command: Command,
    p: astrixd_request::Payload,
) -> bool {
    let code = command_code(command);
    match scope {
        Scope::BlockAdded(_) => p matches astrixd_request::Payload::NotifyBlockAddedRequest(m)
            && m.command == code,
        Scope::NewBlockTemplate(_) => p matches astrixd_request::Payload::NotifyNewBlockTemplateRequest(
            m,
        ) && m.command == code,
        Scope::VirtualChainChanged(s) => p matches astrixd_request::Payload::NotifyVirtualChainChangedRequest(
            m,
        ) && m.command == code && m.include_accepted_transaction_ids
            == s.include_accepted_transaction_ids,
        Scope::FinalityConflict(_) => p matches astrixd_request::Payload::NotifyFinalityConflictRequest(
            m,
        ) && m.command == code,
        Scope::FinalityConflictResolved(_) => p matches astrixd_request::Payload::NotifyFinalityConflictRequest(
            m,
        ) && m.command == code,
        Scope::UtxosChanged(s) => p matches astrixd_request::Payload::NotifyUtxosChangedRequest(m)
            && m.command == code && address_views(m.addresses@) == address_views(s.addresses@),
        Scope::SinkBlueScoreChanged(_) => p matches astrixd_request::Payload::NotifySinkBlueScoreChangedRequest(
            m,
        ) && m.command == code,
        Scope::VirtualDaaScoreChanged(_) => p matches astrixd_request::Payload::NotifyVirtualDaaScoreChangedRequest(
            m,
        ) && m.command == code,
        Scope::PruningPointUtxoSetOverride(_) => p matches astrixd_request::Payload::NotifyPruningPointUtxoSetOverrideRequest(
            m,
        ) && m.command == code,
    }
}

/// A copy of a list of addresses.
fn copy_addresses(addresses: &Vec<String>) -> (r: Vec<String>)
    ensures
        address_views(r@) == address_views(addresses@),
{
    let mut r: Vec<String> = Vec::new();
    let mut i: usize = 0;
    while i < addresses.len()
        invariant
            i <= addresses@.len(),
            r@.len() == i,
            forall|j: int| 0 <= j < i ==> r@[j]@ == addresses@[j]@,
        decreases addresses@.len() - i,
    {
        r.push(addresses[i].clone());
        i = i + 1;
    }
    assert(address_views(r@) =~= address_views(addresses@));
    r
}

impl AstrixdRequest {
    /// The request, with id zero, that applies `command` to the notifications of `scope`.
    pub fn from_notification_type(scope: &Scope, command: Command) -> (r: Self)
        ensures
            r.id == 0,
            r.payload matches Some(p) && is_notification_request(*scope, command, p),
    {
        AstrixdRequest {
            id: 0,
            payload: Some(astrixd_request::Payload::from_notification_type(scope, command)),
        }
    }

    /// Whether the request subscribes to or unsubscribes from notifications.
    pub fn is_subscription(&self) -> (r: bool)
        ensures
            r == (self.payload matches Some(p) && is_subscription_payload(p)),
    {
        match &self.payload {
            Some(p) => p.is_subscription(),
            None => false,
        }
    }
}

impl astrixd_request::Payload {
    /// The payload that applies `command` to the notifications of `scope`.
    pub fn from_notification_type(scope: &Scope, command: Command) -> (r: Self)
        ensures
            is_notification_request(*scope, command, r),
    {
        let command = rpc_notify_command(command);
        match scope {
            Scope::BlockAdded(_) => astrixd_request::Payload::NotifyBlockAddedRequest(
                NotifyBlockAddedRequestMessage { command },
            ),
            Scope::NewBlockTemplate(_) => astrixd_request::Payload::NotifyNewBlockTemplateRequest(
                NotifyNewBlockTemplateRequestMessage { command },
            ),
            Scope::VirtualChainChanged(scope) => astrixd_request::Payload::NotifyVirtualChainChangedRequest(
                NotifyVirtualChainChangedRequestMessage {
                    command,
                    include_accepted_transaction_ids: scope.include_accepted_transaction_ids,
                },
            ),
            Scope::FinalityConflict(_) => astrixd_request::Payload::NotifyFinalityConflictRequest(
                NotifyFinalityConflictRequestMessage { command },
            ),
            Scope::FinalityConflictResolved(_) => astrixd_request::Payload::NotifyFinalityConflictRequest(
                NotifyFinalityConflictRequestMessage { command },
            ),
            Scope::UtxosChanged(scope) => astrixd_request::Payload::NotifyUtxosChangedRequest(
                NotifyUtxosChangedRequestMessage {
                    addresses: copy_addresses(&scope.addresses),
                    command,
                },
            ),
            Scope::SinkBlueScoreChanged(_) => astrixd_request::Payload::NotifySinkBlueScoreChangedRequest(
                NotifySinkBlueScoreChangedRequestMessage { command },
            ),
            Scope::VirtualDaaScoreChanged(_) => astrixd_request::Payload::NotifyVirtualDaaScoreChangedRequest(
                NotifyVirtualDaaScoreChangedRequestMessage { command },
            ),
            Scope::PruningPointUtxoSetOverride(_) => astrixd_request::Payload::NotifyPruningPointUtxoSetOverrideRequest(
                NotifyPruningPointUtxoSetOverrideRequestMessage { command },
            ),
        }
    }

    /// Whether the payload subscribes to or unsubscribes from notifications.
    pub fn is_subscription(&self) -> (r: bool)
        ensures
            r == is_subscription_payload(*self),
    {
        match self {
            astrixd_request::Payload::NotifyBlockAddedRequest(_) => true,
            astrixd_request::Payload::NotifyVirtualChainChangedRequest(_) => true,
            astrixd_request::Payload::NotifyFinalityConflictRequest(_) => true,
            astrixd_request::Payload::NotifyUtxosChangedRequest(_) => true,
            astrixd_request::Payload::NotifySinkBlueScoreChangedRequest(_) => true,
            astrixd_request::Payload::NotifyVirtualDaaScoreChangedRequest(_) => true,
            astrixd_request::Payload::NotifyPruningPointUtxoSetOverrideRequest(_) => true,
            astrixd_request::Payload::NotifyNewBlockTemplateRequest(_) => true,
            astrixd_request::Payload::StopNotifyingUtxosChangedRequest(_) => true,
            astrixd_request::Payload::StopNotifyingPruningPointUtxoSetOverrideRequest(_) => true,
            _ => false,
        }
    }
}

impl AstrixdResponse {
    /// Whether the response is a notification.
    pub fn is_notification(&self) -> (r: bool)
        ensures
            r == (self.payload matches Some(p) && is_notification_payload(p)),
    {
        match &self.payload {
            Some(payload) => payload.is_notification(),
            None => false,
        }
    }
}

impl astrixd_response::Payload {
    /// Whether the payload is a notification.
    pub fn is_notification(&self) -> (r: bool)
        ensures
            r == is_notification_payload(*self),
    {
        match self {
            astrixd_response::Payload::BlockAddedNotification => true,
            astrixd_response::Payload::VirtualChainChangedNotification => true,
            astrixd_response::Payload::FinalityConflictNotification => true,
            astrixd_response::Payload::FinalityConflictResolvedNotification => true,
            astrixd_response::Payload::UtxosChangedNotification => true,
            astrixd_response::Payload::SinkBlueScoreChangedNotification => true,
            astrixd_response::Payload::VirtualDaaScoreChangedNotification => true,
            astrixd_response::Payload::PruningPointUtxoSetOverrideNotification => true,
            astrixd_response::Payload::NewBlockTemplateNotification => true,
            _ => false,
        }
    }
}

impl From<astrixd_request::Payload> for AstrixdRequest {
    fn from(item: astrixd_request::Payload) -> (r: Self)
        ensures
            r == (AstrixdRequest { id: 0, payload: Some(item) }),
    {
        AstrixdRequest { id: 0, payload: Some(item) }
    }
}

impl vstd::std_specs::convert::FromSpecImpl<astrixd_request::Payload> for AstrixdRequest {
    open spec fn obeys_from_spec() -> bool {
        true
    }

    open spec fn from_spec(item: astrixd_request::Payload) -> Self {
        AstrixdRequest { id: 0, payload: Some(item) }
    }
}

/// Every request built for a notification scope is a subscription request.
pub proof fn lemma_notification_request_is_subscription(
    scope: Scope,
    command: Command,
    p: astrixd_request::Payload,
)
    requires
        is_notification_request(scope, command, p),
    ensures
        is_subscription_payload(p),
{
}

/// A request is a subscription request exactly when it asks for one of the operations that
/// start or stop notifications.
pub proof fn lemma_subscription_operations(p: astrixd_request::Payload)
    ensures
        is_subscription_payload(p) <==> {
            ||| request_op(p) == AstrixdPayloadOps::NotifyBlockAdded
            ||| request_op(p) == AstrixdPayloadOps::NotifyNewBlockTemplate
            ||| request_op(p) == AstrixdPayloadOps::NotifyUtxosChanged
            ||| request_op(p) == AstrixdPayloadOps::NotifyPruningPointUtxoSetOverride
            ||| request_op(p) == AstrixdPayloadOps::NotifyFinalityConflict
            ||| request_op(p) == AstrixdPayloadOps::NotifyVirtualDaaScoreChanged
            ||| request_op(p) == AstrixdPayloadOps::NotifyVirtualChainChanged
            ||| request_op(p) == AstrixdPayloadOps::NotifySinkBlueScoreChanged
            ||| request_op(p) == AstrixdPayloadOps::StopNotifyingUtxosChanged
            ||| request_op(p) == AstrixdPayloadOps::StopNotifyingPruningPointUtxoSetOverride
        },
{
}

/// A response is a notification exactly when it answers no request; a notification reports no
/// error, and each of the nine notification kinds is a notification.
pub proof fn lemma_notifications_answer_no_request(p: astrixd_response::Payload)
    ensures
        is_notification_payload(p) <==> response_code(p) is None,
        is_notification_payload(p) ==> response_error(p) is None,
        is_notification_payload(astrixd_response::Payload::BlockAddedNotification),
        is_notification_payload(astrixd_response::Payload::VirtualChainChangedNotification),
        is_notification_payload(astrixd_response::Payload::FinalityConflictNotification),
        is_notification_payload(astrixd_response::Payload::FinalityConflictResolvedNotification),
        is_notification_payload(astrixd_response::Payload::UtxosChangedNotification),
        is_notification_payload(astrixd_response::Payload::SinkBlueScoreChangedNotification),
        is_notification_payload(astrixd_response::Payload::VirtualDaaScoreChangedNotification),
        is_notification_payload(astrixd_response::Payload::PruningPointUtxoSetOverrideNotification),
        is_notification_payload(astrixd_response::Payload::NewBlockTemplateNotification),
{
}

/// The command code that a subscription request carries; `None` for a request that carries
/// none.
pub open spec fn request_command(p: astrixd_request::Payload) -> Option<i32> {
    match p {
        astrixd_request::Payload::NotifyBlockAddedRequest(m) => Some(m.command),
        astrixd_request::Payload::NotifyNewBlockTemplateRequest(m) => Some(m.command),
        astrixd_request::Payload::NotifyUtxosChangedRequest(m) => Some(m.command),
        astrixd_request::Payload::NotifyPruningPointUtxoSetOverrideRequest(m) => Some(m.command),
        astrixd_request::Payload::NotifyFinalityConflictRequest(m) => Some(m.command),
        astrixd_request::Payload::NotifyVirtualDaaScoreChangedRequest(m) => Some(m.command),
        astrixd_request::Payload::NotifyVirtualChainChangedRequest(m) => Some(m.command),
        astrixd_request::Payload::NotifySinkBlueScoreChangedRequest(m) => Some(m.command),
        _ => None,
    }
}

/// The operation that subscribes to the notifications of a scope: finality conflicts and their
/// resolution share one.
pub open spec fn scope_operation(scope: Scope) -> AstrixdPayloadOps {
    match scope {
        Scope::BlockAdded(_) => AstrixdPayloadOps::NotifyBlockAdded,
        Scope::NewBlockTemplate(_) => AstrixdPayloadOps::NotifyNewBlockTemplate,
        Scope::VirtualChainChanged(_) => AstrixdPayloadOps::NotifyVirtualChainChanged,
        Scope::FinalityConflict(_) => AstrixdPayloadOps::NotifyFinalityConflict,
        Scope::FinalityConflictResolved(_) => AstrixdPayloadOps::NotifyFinalityConflict,
        Scope::UtxosChanged(_) => AstrixdPayloadOps::NotifyUtxosChanged,
        Scope::SinkBlueScoreChanged(_) => AstrixdPayloadOps::NotifySinkBlueScoreChanged,
        Scope::VirtualDaaScoreChanged(_) => AstrixdPayloadOps::NotifyVirtualDaaScoreChanged,
        Scope::PruningPointUtxoSetOverride(_) => AstrixdPayloadOps::NotifyPruningPointUtxoSetOverride,
    }
}

/// The request built for a scope and a command asks for the scope's subscription operation,
/// carries the command's code (0 to start, 1 to stop), and carries the scope's options: the
/// virtual-chain flag and the UTXO addresses, whatever their values.
pub proof fn lemma_notification_request_carries_scope(
    scope: Scope,
    command: Command,
    p: astrixd_request::Payload,
)
    requires
        is_notification_request(scope, command, p),
    ensures
        request_op(p) == scope_operation(scope),
        request_command(p) == Some(if command == Command::Start { 0i32 } else { 1i32 }),
        scope matches Scope::VirtualChainChanged(s) ==> (p matches astrixd_request::Payload::NotifyVirtualChainChangedRequest(
            m,
        ) && m.include_accepted_transaction_ids == s.include_accepted_transaction_ids),
        scope matches Scope::UtxosChanged(s) ==> (p matches astrixd_request::Payload::NotifyUtxosChangedRequest(
            m,
        ) && address_views(m.addresses@) == address_views(s.addresses@)),
{
}

} // verus!
