//! The client's side of a request: what to send, and what to make of what comes back.
use crate::api_error::ActionErrorResponse;
use crate::api_type::{Action, ActionPath, ActionSuccessResponse, Filters};
use crate::identifier::{ReqID, SubscriptionID};
use crate::outside::{json_document, parse_json};
use serde_json::Value;
use vstd::prelude::*;

verus! {

/// Why a request of a client came to nothing.
#[derive(Debug)]
pub enum VISClientError {
    /// The websocket connection failed.
    WebSocketError(tungstenite::Error),
    /// A text or a value was not what was asked for.
    SerdeError(serde_json::Error),
    /// An operation of the system failed.
    IoError(std::io::Error),
    /// The server's address is no URL.
    UrlParseError(url::ParseError),
    /// The server refused the request.
    VisError(ActionErrorResponse),
    /// The connection was lost while waiting for the result.
    LostConnectionWithoutResponse,
}

/// The sentence for an error.
pub open spec fn error_text(error: VISClientError) -> Seq<char> {
    match error {
        VISClientError::WebSocketError(_) => "WebsocketError"@,
        VISClientError::SerdeError(_) => "SerdeError"@,
        VISClientError::IoError(_) => "IoError"@,
        VISClientError::UrlParseError(_) => "Url parsing error"@,
        VISClientError::VisError(_) => "VIS error"@,
        VISClientError::LostConnectionWithoutResponse => {
            "Websocket connection lost while waiting for result"@
        },
    }
}

impl VISClientError {
    /// The sentence for the error.
    pub fn to_text(&self) -> (text: String)
        ensures
            text@ == error_text(*self),
    {
        let text = match self {
            VISClientError::WebSocketError(_) => "WebsocketError",
            VISClientError::SerdeError(_) => "SerdeError",
            VISClientError::IoError(_) => "IoError",
            VISClientError::UrlParseError(_) => "Url parsing error",
            VISClientError::VisError(_) => "VIS error",
            VISClientError::LostConnectionWithoutResponse => {
                "Websocket connection lost while waiting for result"
            },
        };
        text.to_string()
    }
}

impl From<tungstenite::Error> for VISClientError {
    fn from(error: tungstenite::Error) -> (converted: Self)
        ensures
            converted == VISClientError::WebSocketError(error),
    {
        VISClientError::WebSocketError(error)
    }
}

impl vstd::std_specs::convert::FromSpecImpl<tungstenite::Error> for VISClientError {
    open spec fn obeys_from_spec() -> bool {
        true
    }

    open spec fn from_spec(error: tungstenite::Error) -> Self {
        VISClientError::WebSocketError(error)
    }
}

impl From<serde_json::Error> for VISClientError {
    fn from(error: serde_json::Error) -> (converted: Self)
        ensures
            converted == VISClientError::SerdeError(error),
    {
        VISClientError::SerdeError(error)
    }
}

impl vstd::std_specs::convert::FromSpecImpl<serde_json::Error> for VISClientError {
    open spec fn obeys_from_spec() -> bool {
        true
    }

    open spec fn from_spec(error: serde_json::Error) -> Self {
        VISClientError::SerdeError(error)
    }
}

impl From<std::io::Error> for VISClientError {
    fn from(error: std::io::Error) -> (converted: Self)
        ensures
            converted == VISClientError::IoError(error),
    {
        VISClientError::IoError(error)
    }
}

impl vstd::std_specs::convert::FromSpecImpl<std::io::Error> for VISClientError {
    open spec fn obeys_from_spec() -> bool {
        true
    }

    open spec fn from_spec(error: std::io::Error) -> Self {
        VISClientError::IoError(error)
    }
}

impl From<url::ParseError> for VISClientError {
    fn from(error: url::ParseError) -> (converted: Self)
        ensures
            converted == VISClientError::UrlParseError(error),
    {
        VISClientError::UrlParseError(error)
    }
}

impl vstd::std_specs::convert::FromSpecImpl<url::ParseError> for VISClientError {
    open spec fn obeys_from_spec() -> bool {
        true
    }

    open spec fn from_spec(error: url::ParseError) -> Self {
        VISClientError::UrlParseError(error)
    }
}

impl From<ActionErrorResponse> for VISClientError {
    fn from(error: ActionErrorResponse) -> (converted: Self)
        ensures
            converted == VISClientError::VisError(error),
    {
        VISClientError::VisError(error)
    }
}

impl vstd::std_specs::convert::FromSpecImpl<ActionErrorResponse> for VISClientError {
    open spec fn obeys_from_spec() -> bool {
        true
    }

    open spec fn from_spec(error: ActionErrorResponse) -> Self {
        VISClientError::VisError(error)
    }
}

/// The next thing that the connection to the server brings.
#[derive(Debug)]
pub enum ServerFrame {
    /// A text message, with what it is as a successful response.
    Text { text: String, parsed: Result<ActionSuccessResponse, serde_json::Error> },
    /// A message that is no text.
    Other,
    /// The connection failed.
    Failed(tungstenite::Error),
}

/// A `Get` request that waits for its response.
#[derive(Debug)]
pub struct PendingGet {
    pub request_id: ReqID,
}

/// What a waiting `Get` request does next.
#[derive(Debug)]
pub enum GetStep {
    /// Wait for the next frame.
    Wait,
    /// Read the document as an error response, and hand what came of it to
    /// [`PendingGet::error_response`].
    ReadError(Value),
    /// Done: this is the value asked for.
    Done(Value),
    /// Done: the request came to nothing.
    Fail(VISClientError),
}

/// What a waiting `Get` request makes of a successful response: only the response to
/// the request itself ends the waiting.
pub open spec fn get_step_on_success(
    request_id: ReqID,
    response: ActionSuccessResponse,
) -> GetStep {
    match response {
        ActionSuccessResponse::Get { request_id: answered, value, .. } => if answered
            == request_id {
            GetStep::Done(value)
        } else {
            GetStep::Wait
        },
        _ => GetStep::Wait,
    }
}

/// What a waiting `Get` request makes of the next frame. A text that is no successful
/// response is read as a document.
pub open spec fn get_step(request_id: ReqID, frame: ServerFrame) -> GetStep {
    match frame {
        ServerFrame::Text { parsed: Ok(response), .. } => get_step_on_success(request_id, response),
        ServerFrame::Text { text, parsed: Err(_) } => match json_document(text@) {
            Ok(document) => GetStep::ReadError(document),
            Err(error) => GetStep::Fail(VISClientError::SerdeError(error)),
        },
        ServerFrame::Other => GetStep::Wait,
        ServerFrame::Failed(error) => GetStep::Fail(VISClientError::WebSocketError(error)),
    }
}

/// The error that a document read as an error response stands for.
pub open spec fn error_read(
    parsed: Result<ActionErrorResponse, serde_json::Error>,
) -> VISClientError {
    match parsed {
        Ok(response) => VISClientError::VisError(response),
        Err(error) => VISClientError::SerdeError(error),
    }
}

impl PendingGet {
    /// The request under the identifier given.
    pub fn with_request_id(path: ActionPath, request_id: ReqID) -> (started: (Self, Action))
        ensures
            started.0 == (PendingGet { request_id }),
            started.1 == (Action::Get { path, request_id }),
    {
        (PendingGet { request_id }, Action::Get { path, request_id })
    }

    /// A new request for the value of a signal, under a randomly drawn identifier.
    pub fn start(path: ActionPath) -> (started: (Self, Action))
        ensures
            started.1 == (Action::Get { path, request_id: started.0.request_id }),
            started.0.request_id matches ReqID::ReqIDUUID(uuid) && uuid.is_v4(),
    {
        let request_id = ReqID::default();
        Self::with_request_id(path, request_id)
    }

    /// What to make of the document that a text spells which is no successful
    /// response.
    pub fn step_on_document(parsed: Result<Value, serde_json::Error>) -> (step: GetStep)
        ensures
            step == (match parsed {
                Ok(document) => GetStep::ReadError(document),
                Err(error) => GetStep::Fail(VISClientError::SerdeError(error)),
            }),
    {
        match parsed {
            Ok(document) => GetStep::ReadError(document),
            Err(error) => GetStep::Fail(VISClientError::from(error)),
        }
    }

    /// What to make of the next frame.
    pub fn step(&self, frame: ServerFrame) -> (step: GetStep)
        ensures
            step == get_step(self.request_id, frame),
    {
        match frame {
            ServerFrame::Text { parsed: Ok(response), .. } => match response {
                ActionSuccessResponse::Get { request_id, value, .. } => {
                    if request_id != self.request_id {
                        GetStep::Wait
                    } else {
                        GetStep::Done(value)
                    }
                },
                _ => GetStep::Wait,
            },
            ServerFrame::Text { text, parsed: Err(_) } => {
                Self::step_on_document(parse_json(text.as_str()))
            },
            ServerFrame::Other => GetStep::Wait,
            ServerFrame::Failed(error) => GetStep::Fail(VISClientError::from(error)),
        }
    }

    /// The error that a document read as an error response stands for. The response
    /// ends the waiting whichever request it answers.
    pub fn error_response(parsed: Result<ActionErrorResponse, serde_json::Error>) -> (error:
        VISClientError)
        ensures
            error == (match parsed {
                Ok(response) => VISClientError::VisError(response),
                Err(serde_error) => VISClientError::SerdeError(serde_error),
            }),
            error == error_read(parsed),
    {
        match parsed {
            Ok(response) => VISClientError::from(response),
            Err(serde_error) => VISClientError::from(serde_error),
        }
    }
}

/// What a subscription makes of the next frame, where every response is of interest.
#[derive(Debug)]
pub enum RawStep {
    /// Wait for the next frame.
    Wait,
    /// Hand out the response.
    Yield(ActionSuccessResponse),
    /// Hand out the error.
    Fail(VISClientError),
}

/// What a subscription makes of the next frame.
#[derive(Debug)]
pub enum SubscribeStep {
    /// Wait for the next frame.
    Wait,
    /// Hand out the value of the subscribed signal.
    Yield(SubscriptionID, Value),
    /// Hand out the error.
    Fail(VISClientError),
}

/// A subscription on the client's side.
#[derive(Debug)]
pub struct PendingSubscribe {
    pub request_id: ReqID,
    /// The subscription's name, once the server gave it one.
    pub subscription_id: Option<SubscriptionID>,
}

/// What a subscription makes of the next frame, where every response is of interest.
pub open spec fn raw_step_on(frame: ServerFrame) -> RawStep {
    match frame {
        ServerFrame::Text { parsed: Ok(response), .. } => RawStep::Yield(response),
        ServerFrame::Text { parsed: Err(error), .. } => RawStep::Fail(
            VISClientError::SerdeError(error),
        ),
        ServerFrame::Other => RawStep::Wait,
        ServerFrame::Failed(error) => RawStep::Fail(VISClientError::WebSocketError(error)),
    }
}

impl PendingSubscribe {
    /// The subscription after a successful response: the response to its own request
    /// names it.
    pub open spec fn after_success(self, response: ActionSuccessResponse) -> Self {
        match response {
            ActionSuccessResponse::Subscribe { request_id, subscription_id, .. } => if request_id
                == self.request_id {
                PendingSubscribe { subscription_id: Some(subscription_id), ..self }
            } else {
                self
            },
            _ => self,
        }
    }

    /// What the subscription makes of a successful response: only notifications of
    /// the subscription itself are handed out.
    pub open spec fn step_on_success(self, response: ActionSuccessResponse) -> SubscribeStep {
        match response {
            ActionSuccessResponse::Subscription { subscription_id, value, .. } => if Some(
                subscription_id,
            ) == self.subscription_id {
                SubscribeStep::Yield(subscription_id, value)
            } else {
                SubscribeStep::Wait
            },
            _ => SubscribeStep::Wait,
        }
    }

    /// The subscription after a frame.
    pub open spec fn after_frame(self, frame: ServerFrame) -> Self {
        match frame {
            ServerFrame::Text { parsed: Ok(response), .. } => self.after_success(response),
            _ => self,
        }
    }

    /// What the subscription makes of a frame.
    pub open spec fn step_on_frame(self, frame: ServerFrame) -> SubscribeStep {
        match frame {
            ServerFrame::Text { parsed: Ok(response), .. } => self.step_on_success(response),
            ServerFrame::Text { parsed: Err(error), .. } => SubscribeStep::Fail(
                VISClientError::SerdeError(error),
            ),
            ServerFrame::Other => SubscribeStep::Wait,
            ServerFrame::Failed(error) => SubscribeStep::Fail(
                VISClientError::WebSocketError(error),
            ),
        }
    }

    /// The request under the identifier given.
    pub fn with_request_id(
        path: ActionPath,
        filters: Option<Filters>,
        request_id: ReqID,
    ) -> (started: (Self, Action))
        ensures
            started.0 == (PendingSubscribe { request_id, subscription_id: None }),
            started.1 == (Action::Subscribe { path, filters, request_id }),
    {
        (
            PendingSubscribe { request_id, subscription_id: None },
            Action::Subscribe { path, filters, request_id },
        )
    }

    /// A new subscription to a signal, under a randomly drawn request identifier.
    pub fn start(path: ActionPath, filters: Option<Filters>) -> (started: (Self, Action))
        ensures
            started.0.subscription_id is None,
            started.1 == (Action::Subscribe { path, filters, request_id: started.0.request_id }),
            started.0.request_id matches ReqID::ReqIDUUID(uuid) && uuid.is_v4(),
    {
        let request_id = ReqID::default();
        Self::with_request_id(path, filters, request_id)
    }

    /// What to make of the next frame where every response is of interest.
    pub fn raw_step(frame: ServerFrame) -> (step: RawStep)
        ensures
            step == raw_step_on(frame),
    {
        match frame {
            ServerFrame::Text { parsed: Ok(response), .. } => RawStep::Yield(response),
            ServerFrame::Text { parsed: Err(error), .. } => {
                RawStep::Fail(VISClientError::from(error))
            },
            ServerFrame::Other => RawStep::Wait,
            ServerFrame::Failed(error) => RawStep::Fail(VISClientError::from(error)),
        }
    }

    /// What to make of the next frame.
    pub fn step(&mut self, frame: ServerFrame) -> (step: SubscribeStep)
        ensures
            *final(self) == old(self).after_frame(frame),
            step == old(self).step_on_frame(frame),
    {
        match frame {
            ServerFrame::Text { parsed: Ok(response), .. } => match response {
                ActionSuccessResponse::Subscribe { request_id, subscription_id, .. } => {
                    if request_id == self.request_id {
                        self.subscription_id = Some(subscription_id);
                    }
                    SubscribeStep::Wait
                },
                ActionSuccessResponse::Subscription { subscription_id, value, .. } => {
                    match self.subscription_id {
                        Some(own) => if own == subscription_id {
                            SubscribeStep::Yield(subscription_id, value)
                        } else {
                            SubscribeStep::Wait
                        },
                        None => SubscribeStep::Wait,
                    }
                },
                _ => SubscribeStep::Wait,
            },
            ServerFrame::Text { parsed: Err(error), .. } => {
                SubscribeStep::Fail(VISClientError::from(error))
            },
            ServerFrame::Other => SubscribeStep::Wait,
            ServerFrame::Failed(error) => SubscribeStep::Fail(VISClientError::from(error)),
        }
    }
}

/// An `UnsubscribeAll` request that waits for its response.
#[derive(Debug)]
pub struct PendingUnsubscribeAll {
    pub request_id: ReqID,
}

/// What a waiting `UnsubscribeAll` request does next.
#[derive(Debug)]
pub enum UnsubscribeAllStep {
    /// Wait for the next frame.
    Wait,
    /// Done: all subscriptions are ended.
    Done,
    /// Done: the request came to nothing.
    Fail(VISClientError),
}

/// What a waiting `UnsubscribeAll` request makes of the next frame; no frame stands
/// for the end of the connection.
pub open spec fn unsubscribe_all_step(
    request_id: ReqID,
    frame: Option<ServerFrame>,
) -> UnsubscribeAllStep {
    match frame {
        Some(ServerFrame::Text { parsed: Ok(response), .. }) => match response {
            ActionSuccessResponse::UnsubscribeAll { request_id: answered, .. } => if answered
                == request_id {
                UnsubscribeAllStep::Done
            } else {
                UnsubscribeAllStep::Wait
            },
            _ => UnsubscribeAllStep::Wait,
        },
        Some(ServerFrame::Text { parsed: Err(error), .. }) => UnsubscribeAllStep::Fail(
            VISClientError::SerdeError(error),
        ),
        Some(ServerFrame::Other) => UnsubscribeAllStep::Wait,
        Some(ServerFrame::Failed(_)) => UnsubscribeAllStep::Fail(
            VISClientError::LostConnectionWithoutResponse,
        ),
        None => UnsubscribeAllStep::Fail(VISClientError::LostConnectionWithoutResponse),
    }
}

impl PendingUnsubscribeAll {
    /// The request under the identifier given.
    pub fn with_request_id(request_id: ReqID) -> (started: (Self, Action))
        ensures
            started.0 == (PendingUnsubscribeAll { request_id }),
            started.1 == (Action::UnsubscribeAll { request_id }),
    {
        (PendingUnsubscribeAll { request_id }, Action::UnsubscribeAll { request_id })
    }

    /// A new request to end all subscriptions, under a randomly drawn identifier.
    pub fn start() -> (started: (Self, Action))
        ensures
            started.1 == (Action::UnsubscribeAll { request_id: started.0.request_id }),
            started.0.request_id matches ReqID::ReqIDUUID(uuid) && uuid.is_v4(),
    {
        let request_id = ReqID::default();
        Self::with_request_id(request_id)
    }

    /// What to make of the next frame; no frame stands for the end of the connection.
    pub fn step(&self, frame: Option<ServerFrame>) -> (step: UnsubscribeAllStep)
        ensures
            step == unsubscribe_all_step(self.request_id, frame),
    {
        match frame {
            Some(ServerFrame::Text { parsed: Ok(response), .. }) => match response {
                ActionSuccessResponse::UnsubscribeAll { request_id, .. } => {
                    if request_id == self.request_id {
                        UnsubscribeAllStep::Done
                    } else {
                        UnsubscribeAllStep::Wait
                    }
                },
                _ => UnsubscribeAllStep::Wait,
            },
            Some(ServerFrame::Text { parsed: Err(error), .. }) => {
                UnsubscribeAllStep::Fail(VISClientError::from(error))
            },
            Some(ServerFrame::Other) => UnsubscribeAllStep::Wait,
            Some(ServerFrame::Failed(_)) => {
                UnsubscribeAllStep::Fail(VISClientError::LostConnectionWithoutResponse)
            },
            None => UnsubscribeAllStep::Fail(VISClientError::LostConnectionWithoutResponse),
        }
    }
}

} // verus!
