//! Sessions of clients that reach the service through a web server.
use crate::api_error::{
    known_error, new_authorize_error, new_deserialization_error, new_get_metadata_error,
    new_subscribe_error, plain_error_response, status_error, ActionError,
    ActionErrorResponse, Topic, BAD_REQUEST, INTERNAL_SERVER_ERROR, NOT_IMPLEMENTED,
};
use crate::api_type::{Action, ActionPath, Filters};
use crate::clock::{millis_of, reading_at, unix_timestamp_ms};
use crate::identifier::{ReqID, SubscriptionID, Uuid};
use serde_json::Value;
use std::time::SystemTime;
use vstd::prelude::*;

verus! {

/// Names a connected client in the logs and to the keeper of the signals.
pub type ClientConnectionId = Uuid;

/// A request that is passed on to the keeper of the signals.
#[derive(Debug, PartialEq)]
pub enum SignalRequest {
    Subscribe { path: ActionPath, request_id: ReqID, filters: Option<Filters> },
    Unsubscribe { request_id: ReqID, subscription_id: SubscriptionID },
    Get { request_id: ReqID, path: ActionPath },
    /// Without a request to answer where the session is over.
    UnsubscribeAll { request_id: Option<ReqID> },
    SetSignal { request_id: ReqID, path: ActionPath, value: Value },
}

/// A request together with the client that made it.
#[derive(Debug, PartialEq)]
pub struct ClientMessage {
    pub client_connection_id: ClientConnectionId,
    pub message: SignalRequest,
}

/// What a websocket of a session brings.
#[derive(Debug)]
pub enum SessionEvent {
    Ping(Vec<u8>),
    Pong,
    Binary,
    /// A text message, read as a request.
    Text(Result<Action, serde_json::Error>),
    Close,
    Nop,
    Continuation,
    /// The peer broke the protocol.
    ProtocolError,
}

/// What a session does next.
#[derive(Debug, PartialEq)]
pub enum SessionStep {
    /// Answer a ping with the same bytes.
    Pong(Vec<u8>),
    /// Nothing.
    Ignore,
    /// Tell the client that its text is no request.
    ReplyMalformed(ActionError),
    /// Send the client an error response.
    ReplyError(ActionErrorResponse),
    /// Pass a request on to the keeper of the signals.
    Forward(ClientMessage),
    /// End the session.
    Stop,
}

/// The request that is passed on for a request of a client; `Authorize` and
/// `GetMetadata` are not passed on.
pub open spec fn signal_request(action: Action) -> Option<SignalRequest> {
    match action {
        Action::Subscribe { path, request_id, filters } => Some(
            SignalRequest::Subscribe { path, request_id, filters },
        ),
        Action::Unsubscribe { request_id, subscription_id } => Some(
            SignalRequest::Unsubscribe { request_id, subscription_id },
        ),
        Action::Get { path, request_id } => Some(SignalRequest::Get { request_id, path }),
        Action::UnsubscribeAll { request_id } => Some(
            SignalRequest::UnsubscribeAll { request_id: Some(request_id) },
        ),
        Action::SetSignal { request_id, path, value } => Some(
            SignalRequest::SetSignal { request_id, path, value },
        ),
        Action::Authorize { .. } => None,
        Action::GetMetadata { .. } => None,
    }
}

/// The request of a client that a request passed on stands for; none where the session
/// is over.
pub open spec fn client_request(message: SignalRequest) -> Option<Action> {
    match message {
        SignalRequest::Subscribe { path, request_id, filters } => Some(
            Action::Subscribe { path, filters, request_id },
        ),
        SignalRequest::Unsubscribe { request_id, subscription_id } => Some(
            Action::Unsubscribe { subscription_id, request_id },
        ),
        SignalRequest::Get { request_id, path } => Some(Action::Get { path, request_id }),
        SignalRequest::UnsubscribeAll { request_id: Some(request_id) } => Some(
            Action::UnsubscribeAll { request_id },
        ),
        SignalRequest::UnsubscribeAll { request_id: None } => None,
        SignalRequest::SetSignal { request_id, path, value } => Some(
            Action::SetSignal { path, value, request_id },
        ),
    }
}

impl SignalRequest {
    /// The request of a client that this stands for; none where the session is over.
    pub fn into_action(self) -> (action: Option<Action>)
        ensures
            action == client_request(self),
    {
        match self {
            SignalRequest::Subscribe { path, request_id, filters } => {
                Some(Action::Subscribe { path, filters, request_id })
            },
            SignalRequest::Unsubscribe { request_id, subscription_id } => {
                Some(Action::Unsubscribe { subscription_id, request_id })
            },
            SignalRequest::Get { request_id, path } => Some(Action::Get { path, request_id }),
            SignalRequest::UnsubscribeAll { request_id } => match request_id {
                Some(request_id) => Some(Action::UnsubscribeAll { request_id }),
                None => None,
            },
            SignalRequest::SetSignal { request_id, path, value } => {
                Some(Action::SetSignal { path, value, request_id })
            },
        }
    }
}

/// The topic of the refusal of a request that is not passed on.
pub open spec fn refusal_topic(action: Action) -> Topic {
    match action {
        Action::Authorize { .. } => Topic::Authorize,
        _ => Topic::GetMetadata,
    }
}

/// What a session does for what its websocket brings.
pub open spec fn session_step_is(
    client_connection_id: ClientConnectionId,
    event: SessionEvent,
    timestamp: u128,
    step: SessionStep,
) -> bool {
    match event {
        SessionEvent::Ping(bytes) => step == SessionStep::Pong(bytes),
        SessionEvent::Pong | SessionEvent::Binary => step == SessionStep::Ignore,
        SessionEvent::Text(Err(_)) => step matches SessionStep::ReplyMalformed(error) && error@
            == known_error(BAD_REQUEST),
        SessionEvent::Text(Ok(action)) => match signal_request(action) {
            Some(message) => step == SessionStep::Forward(
                ClientMessage { client_connection_id, message },
            ),
            None => step matches SessionStep::ReplyError(response) && response@
                == plain_error_response(
                refusal_topic(action),
                action.request_id(),
                status_error(NOT_IMPLEMENTED),
                timestamp,
            ),
        },
        SessionEvent::Close
        | SessionEvent::Nop
        | SessionEvent::Continuation
        | SessionEvent::ProtocolError => step == SessionStep::Stop,
    }
}

/// The session of one client. `A` is where the keeper of the signals is reached.
pub struct ClientSession<A> {
    /// Names the client; drawn when it connects.
    client_connection_id: ClientConnectionId,
    /// Where requests are passed on to.
    signal_manager_addr: A,
}

impl<A> ClientSession<A> {
    /// The name of the session's client.
    pub closed spec fn spec_client_connection_id(&self) -> ClientConnectionId {
        self.client_connection_id
    }

    /// Where requests are passed on to.
    pub closed spec fn spec_signal_manager_addr(&self) -> &A {
        &self.signal_manager_addr
    }

    /// A session whose client gets a randomly drawn name.
    pub fn new(signal_manager_addr: A) -> (session: Self)
        ensures
            session.client_connection_id().is_v4(),
            *session.signal_manager_addr() == signal_manager_addr,
    {
        ClientSession { client_connection_id: Uuid::new_v4(), signal_manager_addr }
    }

    /// Where requests are passed on to.
    #[verifier::when_used_as_spec(spec_signal_manager_addr)]
    pub fn signal_manager_addr(&self) -> (addr: &A)
        ensures
            addr == self.spec_signal_manager_addr(),
    {
        &self.signal_manager_addr
    }

    /// The name of the session's client.
    #[verifier::when_used_as_spec(spec_client_connection_id)]
    pub fn client_connection_id(&self) -> (id: ClientConnectionId)
        ensures
            id == self.spec_client_connection_id(),
    {
        self.client_connection_id
    }

    /// What to pass on when the session is over: the client's subscriptions end, and
    /// no request is answered.
    pub fn stopped(&self) -> (message: ClientMessage)
        ensures
            message == (ClientMessage {
                client_connection_id: self.client_connection_id(),
                message: SignalRequest::UnsubscribeAll { request_id: None },
            }),
    {
        ClientMessage {
            client_connection_id: self.client_connection_id,
            message: SignalRequest::UnsubscribeAll { request_id: None },
        }
    }

    /// What to do for what the session's websocket brings, with the timestamp given.
    pub fn handle_at(&self, event: SessionEvent, timestamp: u128) -> (step: SessionStep)
        ensures
            session_step_is(self.client_connection_id(), event, timestamp, step),
    {
        let action = match event {
            SessionEvent::Ping(bytes) => {
                return SessionStep::Pong(bytes);
            },
            SessionEvent::Pong | SessionEvent::Binary => {
                return SessionStep::Ignore;
            },
            SessionEvent::Text(Err(_)) => {
                return SessionStep::ReplyMalformed(new_deserialization_error());
            },
            SessionEvent::Text(Ok(action)) => action,
            SessionEvent::Close
            | SessionEvent::Nop
            | SessionEvent::Continuation
            | SessionEvent::ProtocolError => {
                return SessionStep::Stop;
            },
        };
        let message = match action {
            Action::Subscribe { path, request_id, filters } => {
                SignalRequest::Subscribe { path, request_id, filters }
            },
            Action::Unsubscribe { request_id, subscription_id } => {
                SignalRequest::Unsubscribe { request_id, subscription_id }
            },
            Action::Get { path, request_id } => SignalRequest::Get { request_id, path },
            Action::UnsubscribeAll { request_id } => {
                SignalRequest::UnsubscribeAll { request_id: Some(request_id) }
            },
            Action::SetSignal { request_id, path, value } => {
                SignalRequest::SetSignal { request_id, path, value }
            },
            Action::Authorize { request_id, .. } => {
                return SessionStep::ReplyError(
                    new_authorize_error(
                        request_id,
                        ActionError::from_status(NOT_IMPLEMENTED),
                        timestamp,
                    ),
                );
            },
            Action::GetMetadata { request_id, .. } => {
                return SessionStep::ReplyError(
                    new_get_metadata_error(
                        request_id,
                        ActionError::from_status(NOT_IMPLEMENTED),
                        timestamp,
                    ),
                );
            },
        };
        SessionStep::Forward(
            ClientMessage { client_connection_id: self.client_connection_id, message },
        )
    }

    /// What to do now for what the session's websocket brings.
    pub fn handle(&self, event: SessionEvent) -> (step: SessionStep)
        ensures
            exists|timestamp: u128, now: SystemTime|
                {
                    &&& timestamp == millis_of(#[trigger] reading_at(now))
                    &&& #[trigger] session_step_is(
                        self.client_connection_id(),
                        event,
                        timestamp,
                        step,
                    )
                },
    {
        let timestamp: u128 = unix_timestamp_ms();
        self.handle_at(event, timestamp)
    }
}

/// What a client is sent in place of a response that cannot be put into text, with
/// the timestamp given.
pub fn unserializable_response(timestamp: u128) -> (response: ActionErrorResponse)
    ensures
        response@ == plain_error_response(
            Topic::Subscribe,
            ReqID::ReqIDInt(0),
            status_error(INTERNAL_SERVER_ERROR),
            timestamp,
        ),
{
    new_subscribe_error(
        ReqID::ReqIDInt(0),
        ActionError::from_status(INTERNAL_SERVER_ERROR),
        timestamp,
    )
}

/// The request that the keeper of the signals is to answer.
pub open spec fn request_to_answer(message: SignalRequest) -> Option<ReqID> {
    match message {
        SignalRequest::Subscribe { request_id, .. } => Some(request_id),
        SignalRequest::Unsubscribe { request_id, .. } => Some(request_id),
        SignalRequest::Get { request_id, .. } => Some(request_id),
        SignalRequest::UnsubscribeAll { request_id } => request_id,
        SignalRequest::SetSignal { request_id, .. } => Some(request_id),
    }
}

/// No request of a client is lost: it is passed on whole, under the client's name and with
/// its identifier, or it is refused with its identifier.
pub proof fn law_sessions_lose_no_request(
    client_connection_id: ClientConnectionId,
    action: Action,
    timestamp: u128,
    step: SessionStep,
)
    requires
        session_step_is(client_connection_id, SessionEvent::Text(Ok(action)), timestamp, step),
    ensures
        match step {
            SessionStep::Forward(message) => {
                &&& message.client_connection_id == client_connection_id
                &&& request_to_answer(message.message) == Some(action.request_id())
                &&& client_request(message.message) == Some(action)
                &&& !(action is Authorize || action is GetMetadata)
            },
            SessionStep::ReplyError(response) => {
                &&& response@.answers == Some(action.request_id())
                &&& response@.error.number == 501
                &&& action is Authorize || action is GetMetadata
            },
            _ => false,
        },
{
}

/// A new value for a signal.
#[derive(Debug, PartialEq)]
pub struct UpdateSignal {
    pub path: ActionPath,
    pub value: Value,
}

/// What signal updates can be taken from.
pub trait ActionSourceable {
    /// The updates, in order.
    fn source(self) -> Vec<(ActionPath, Value)>
        where Self: Sized
    ;
}

impl ActionSourceable for (ActionPath, Value) {
    /// The one update.
    fn source(self) -> (updates: Vec<(ActionPath, Value)>)
        ensures
            updates@ == seq![self],
    {
        let mut updates: Vec<(ActionPath, Value)> = Vec::new();
        updates.push(self);
        updates
    }
}

impl ActionSourceable for Vec<(ActionPath, Value)> {
    /// The updates as they are.
    fn source(self) -> (updates: Vec<(ActionPath, Value)>)
        ensures
            updates == self,
    {
        self
    }
}

/// The update to send for an item of the signal source of a path: its value, as it is.
/// An item that failed brings no value, and nothing is sent for it.
pub fn source_update(path: &ActionPath, item: Option<Value>) -> (update: Option<UpdateSignal>)
    ensures
        update is Some <==> item is Some,
        update matches Some(sent) ==> sent.path@ == path@ && item == Some(sent.value),
{
    match item {
        Some(value) => Some(UpdateSignal { path: path.clone(), value }),
        None => None,
    }
}

/// The updates to send for the items of a signal source, in the same order.
pub fn signal_updates(items: Vec<(ActionPath, Value)>) -> (updates: Vec<UpdateSignal>)
    ensures
        updates@.len() == items@.len(),
        forall|i: int|
            0 <= i < items@.len() ==> {
                &&& (#[trigger] updates@[i]).path@ == items@[i].0@
                &&& updates@[i].value == items@[i].1
            },
{
    let mut updates: Vec<UpdateSignal> = Vec::new();
    for i in 0..items.len()
        invariant
            updates@.len() == i,
            forall|j: int|
                0 <= j < i ==> {
                    &&& (#[trigger] updates@[j]).path@ == items@[j].0@
                    &&& updates@[j].value == items@[j].1
                },
    {
        updates.push(UpdateSignal { path: items[i].0.clone(), value: items[i].1.clone() });
    }
    updates
}

/// What a session does is fixed by what its websocket brings: a ping is answered with its
/// own bytes; pongs and binary messages are ignored; a text that is no request is answered
/// as malformed; a request is passed on as it is, under the client's name, or, where it is
/// `Authorize` or `GetMetadata`, refused as not implemented; all else ends the session.
pub proof fn law_sessions_do_what_is_asked(
    client_connection_id: ClientConnectionId,
    event: SessionEvent,
    timestamp: u128,
    step: SessionStep,
)
    requires
        session_step_is(client_connection_id, event, timestamp, step),
    ensures
        event matches SessionEvent::Ping(bytes) ==> step == SessionStep::Pong(bytes),
        step is Pong <==> event is Ping,
        step is Ignore <==> event is Pong || event is Binary,
        step is Stop <==> {
            ||| event is Close
            ||| event is Nop
            ||| event is Continuation
            ||| event is ProtocolError
        },
        step is ReplyMalformed <==> event is Text && event->Text_0 is Err,
        step is ReplyMalformed ==> {
            let error = step->ReplyMalformed_0@;
            &&& error.number == 400
            &&& error.reason == "bad_request"@
            &&& error.message
                == "The server is unable to fulfil the client request because the request is malformed."@
        },
        step is ReplyError <==> {
            &&& event is Text
            &&& event->Text_0 is Ok
            &&& event->Text_0->Ok_0 is Authorize || event->Text_0->Ok_0 is GetMetadata
        },
        step is ReplyError ==> {
            let response = step->ReplyError_0@;
            let action = event->Text_0->Ok_0;
            &&& response.topic == (if action is Authorize {
                Topic::Authorize
            } else {
                Topic::GetMetadata
            })
            &&& action is Authorize ==> response.answers == Some(action->Authorize_request_id)
            &&& action is GetMetadata ==> response.answers == Some(action->GetMetadata_request_id)
            &&& response.subscription_id is None
            &&& response.error == status_error(501)
            &&& response.timestamp == timestamp
        },
        event is Text && event->Text_0 is Ok ==> {
            let passed_on = |message: SignalRequest|
                step == SessionStep::Forward(ClientMessage { client_connection_id, message });
            match event->Text_0->Ok_0 {
                Action::Subscribe { path, request_id, filters } => passed_on(
                    SignalRequest::Subscribe { path, request_id, filters },
                ),
                Action::Unsubscribe { request_id, subscription_id } => passed_on(
                    SignalRequest::Unsubscribe { request_id, subscription_id },
                ),
                Action::Get { path, request_id } => passed_on(
                    SignalRequest::Get { request_id, path },
                ),
                Action::UnsubscribeAll { request_id } => passed_on(
                    SignalRequest::UnsubscribeAll { request_id: Some(request_id) },
                ),
                Action::SetSignal { request_id, path, value } => passed_on(
                    SignalRequest::SetSignal { request_id, path, value },
                ),
                _ => true,
            }
        },
{
}

/// A request passed on stands for the request of the client that carries the same, and
/// only the end of a session stands for none.
pub proof fn law_requests_passed_on_stand_for_their_own(message: SignalRequest)
    ensures
        client_request(message) is None <==> message == (SignalRequest::UnsubscribeAll {
            request_id: None,
        }),
        client_request(message) is Some ==> {
            &&& signal_request(client_request(message)->0) == Some(message)
            &&& request_to_answer(message) == Some(client_request(message)->0.request_id())
        },
{
}

} // verus!
