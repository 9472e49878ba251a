//! Error responses.
use crate::identifier::{ReqID, SubscriptionID};
use crate::outside::{canonical_reason, status_phrase};
use vstd::prelude::*;

verus! {

/// An error that the service gives a fixed number, reason and message.
pub type KnownError = (u16, &'static str, &'static str);

/// The request cannot be understood.
pub const BAD_REQUEST: KnownError = (
    400,
    "bad_request",
    "The server is unable to fulfil the client request because the request is malformed.",
);

/// The filter cannot be applied to the value of the signal.
pub const BAD_REQUEST_FILTER_INVALID: KnownError = (
    400,
    "filter_invalid",
    "Filter requested on non-primitive type.",
);

/// No value is known for the path.
pub const NOT_FOUND_INVALID_PATH: KnownError = (
    404,
    "invalid_path",
    "The specified data path does not exist.",
);

/// The client has no such subscription.
pub const NOT_FOUND_INVALID_SUBSCRIPTION_ID: KnownError = (
    404,
    "invalid_subscriptionId",
    "The specified subscription was not found.",
);

/// The HTTP status code of a request that the service failed to carry out.
pub const INTERNAL_SERVER_ERROR: u16 = 500;

/// The HTTP status code of a request that the service does not support.
pub const NOT_IMPLEMENTED: u16 = 501;

/// What went wrong.
#[derive(Debug, PartialEq)]
pub struct ActionError {
    /// The HTTP status code.
    pub number: u16,
    /// A word for the error.
    pub reason: String,
    /// A sentence for the error.
    pub message: String,
}

/// An [`ActionError`] as its number and the characters of its texts.
#[verifier::ext_equal]
pub struct ActionErrorModel {
    pub number: u16,
    pub reason: Seq<char>,
    pub message: Seq<char>,
}

impl View for ActionError {
    type V = ActionErrorModel;

    open spec fn view(&self) -> ActionErrorModel {
        ActionErrorModel { number: self.number, reason: self.reason@, message: self.message@ }
    }
}

/// The error that a known error stands for.
pub open spec fn known_error(known: KnownError) -> ActionErrorModel {
    ActionErrorModel { number: known.0, reason: known.1@, message: known.2@ }
}

/// The error for an HTTP status code with the phrase given: the phrase is both the
/// reason and the message, and both are empty where there is none.
pub open spec fn phrase_error(code: u16, phrase: Option<Seq<char>>) -> ActionErrorModel {
    let text = match phrase {
        Some(text) => text,
        None => Seq::empty(),
    };
    ActionErrorModel { number: code, reason: text, message: text }
}

/// The error that an HTTP status code stands for: the one with its standard phrase.
pub open spec fn status_error(code: u16) -> ActionErrorModel {
    phrase_error(code, status_phrase(code))
}

impl From<KnownError> for ActionError {
    fn from(known: KnownError) -> (error: Self)
        ensures
            error@ == known_error(known),
            error.number == known.0,
            error.reason@ == known.1@,
            error.message@ == known.2@,
    {
        ActionError { number: known.0, reason: known.1.to_string(), message: known.2.to_string() }
    }
}

impl vstd::std_specs::convert::FromSpecImpl<KnownError> for ActionError {
    open spec fn obeys_from_spec() -> bool {
        false
    }

    open spec fn from_spec(known: KnownError) -> Self {
        arbitrary()
    }
}

impl ActionError {
    /// The error for an HTTP status code with its standard phrase, if it has one: the
    /// phrase is both the reason and the message, and both are empty where there is none.
    pub fn from_phrase(code: u16, phrase: Option<String>) -> (error: Self)
        ensures
            error@ == phrase_error(
                code,
                match phrase {
                    Some(text) => Some(text@),
                    None => None,
                },
            ),
            error.number == code,
            phrase matches Some(text) ==> error.reason@ == text@ && error.message@ == text@,
            phrase is None ==> error.reason@.len() == 0 && error.message@.len() == 0,
    {
        let text = match phrase {
            Some(text) => text,
            None => String::new(),
        };
        ActionError { number: code, reason: text.clone(), message: text }
    }

    /// The error that an HTTP status code stands for.
    pub fn from_status(code: u16) -> (error: Self)
        ensures
            error@ == status_error(code),
            code == INTERNAL_SERVER_ERROR ==> error@.reason == "Internal Server Error"@,
            code == NOT_IMPLEMENTED ==> error@.reason == "Not Implemented"@,
    {
        let phrase = canonical_reason(code);
        Self::from_phrase(code, phrase)
    }
}

/// A response to a request that failed, or the notice that a notification failed.
#[derive(Debug, PartialEq)]
pub enum ActionErrorResponse {
    Authorize { request_id: ReqID, error: ActionError, timestamp: u128 },
    GetMetadata { request_id: ReqID, error: ActionError, timestamp: u128 },
    Get { request_id: ReqID, error: ActionError, timestamp: u128 },
    SetSignal { request_id: ReqID, error: ActionError, timestamp: u128 },
    Subscribe { request_id: ReqID, error: ActionError, timestamp: u128 },
    Subscription { subscription_id: SubscriptionID, error: ActionError, timestamp: u128 },
    Unsubscribe {
        request_id: ReqID,
        subscription_id: SubscriptionID,
        error: ActionError,
        timestamp: u128,
    },
}

/// What an error response is about.
pub enum Topic {
    Authorize,
    GetMetadata,
    Get,
    SetSignal,
    Subscribe,
    Subscription,
    Unsubscribe,
}

/// An [`ActionErrorResponse`] as its topic and what it carries.
#[verifier::ext_equal]
pub struct ErrorResponseModel {
    pub topic: Topic,
    /// The request that is answered; a notification answers none.
    pub answers: Option<ReqID>,
    pub subscription_id: Option<SubscriptionID>,
    pub error: ActionErrorModel,
    pub timestamp: u128,
}

/// The model of a response to a request that names no subscription.
pub open spec fn plain_error_response(
    topic: Topic,
    request_id: ReqID,
    error: ActionErrorModel,
    timestamp: u128,
) -> ErrorResponseModel {
    ErrorResponseModel { topic, answers: Some(request_id), subscription_id: None, error, timestamp }
}

impl View for ActionErrorResponse {
    type V = ErrorResponseModel;

    open spec fn view(&self) -> ErrorResponseModel {
        match *self {
            ActionErrorResponse::Authorize { request_id, error, timestamp } => {
                plain_error_response(Topic::Authorize, request_id, error@, timestamp)
            },
            ActionErrorResponse::GetMetadata { request_id, error, timestamp } => {
                plain_error_response(Topic::GetMetadata, request_id, error@, timestamp)
            },
            ActionErrorResponse::Get { request_id, error, timestamp } => {
                plain_error_response(Topic::Get, request_id, error@, timestamp)
            },
            ActionErrorResponse::SetSignal { request_id, error, timestamp } => {
                plain_error_response(Topic::SetSignal, request_id, error@, timestamp)
            },
            ActionErrorResponse::Subscribe { request_id, error, timestamp } => {
                plain_error_response(Topic::Subscribe, request_id, error@, timestamp)
            },
            ActionErrorResponse::Subscription { subscription_id, error, timestamp } => {
                subscription_error_response(subscription_id, error@, timestamp)
            },
            ActionErrorResponse::Unsubscribe { request_id, subscription_id, error, timestamp } => {
                unsubscribe_error_response(request_id, subscription_id, error@, timestamp)
            },
        }
    }
}

/// The model of the notice that a notification failed.
pub open spec fn subscription_error_response(
    subscription_id: SubscriptionID,
    error: ActionErrorModel,
    timestamp: u128,
) -> ErrorResponseModel {
    ErrorResponseModel {
        topic: Topic::Subscription,
        answers: None,
        subscription_id: Some(subscription_id),
        error,
        timestamp,
    }
}

/// The model of the response to a refused `Unsubscribe`.
pub open spec fn unsubscribe_error_response(
    request_id: ReqID,
    subscription_id: SubscriptionID,
    error: ActionErrorModel,
    timestamp: u128,
) -> ErrorResponseModel {
    ErrorResponseModel {
        topic: Topic::Unsubscribe,
        answers: Some(request_id),
        subscription_id: Some(subscription_id),
        error,
        timestamp,
    }
}

/// Refuses an `Authorize` request.
pub fn new_authorize_error(
    request_id: ReqID,
    error: ActionError,
    timestamp: u128,
) -> (response: ActionErrorResponse)
    ensures
        response == (ActionErrorResponse::Authorize { request_id, error, timestamp }),
        response@ == plain_error_response(Topic::Authorize, request_id, error@, timestamp),
{
    ActionErrorResponse::Authorize { request_id, error, timestamp }
}

/// Refuses a `GetMetadata` request.
pub fn new_get_metadata_error(
    request_id: ReqID,
    error: ActionError,
    timestamp: u128,
) -> (response: ActionErrorResponse)
    ensures
        response == (ActionErrorResponse::GetMetadata { request_id, error, timestamp }),
        response@ == plain_error_response(Topic::GetMetadata, request_id, error@, timestamp),
{
    ActionErrorResponse::GetMetadata { request_id, error, timestamp }
}

/// Refuses a `SetSignal` request.
pub fn new_set_error(
    request_id: ReqID,
    error: ActionError,
    timestamp: u128,
) -> (response: ActionErrorResponse)
    ensures
        response == (ActionErrorResponse::SetSignal { request_id, error, timestamp }),
        response@ == plain_error_response(Topic::SetSignal, request_id, error@, timestamp),
{
    ActionErrorResponse::SetSignal { request_id, error, timestamp }
}

/// Refuses a `Subscribe` request.
pub fn new_subscribe_error(
    request_id: ReqID,
    error: ActionError,
    timestamp: u128,
) -> (response: ActionErrorResponse)
    ensures
        response == (ActionErrorResponse::Subscribe { request_id, error, timestamp }),
        response@ == plain_error_response(Topic::Subscribe, request_id, error@, timestamp),
{
    ActionErrorResponse::Subscribe { request_id, error, timestamp }
}

/// Tells a subscriber that a notification failed.
pub fn new_subscription_notification_error(
    subscription_id: SubscriptionID,
    error: ActionError,
    timestamp: u128,
) -> (response: ActionErrorResponse)
    ensures
        response == (ActionErrorResponse::Subscription { subscription_id, error, timestamp }),
        response@ == subscription_error_response(subscription_id, error@, timestamp),
{
    ActionErrorResponse::Subscription { subscription_id, error, timestamp }
}

/// The error for a text that spells no request.
pub fn new_deserialization_error() -> (error: ActionError)
    ensures
        error@ == known_error(BAD_REQUEST),
{
    ActionError::from(BAD_REQUEST)
}

} // verus!
