//! What holds of requests, responses and errors.
use crate::api_error::{
    known_error, phrase_error, status_error, ActionErrorResponse, ErrorResponseModel, KnownError,
    Topic, BAD_REQUEST, BAD_REQUEST_FILTER_INVALID, INTERNAL_SERVER_ERROR, NOT_FOUND_INVALID_PATH,
    NOT_FOUND_INVALID_SUBSCRIPTION_ID, NOT_IMPLEMENTED,
};
use crate::api_type::{interval_of, period, Action, ActionSuccessResponse, Filters};
use crate::identifier::ReqID;
use crate::outside::status_phrase;
use crate::subscription::{notice_model, response_model, Response};
use vstd::prelude::*;

verus! {

/// Every known error has its own number and texts.
pub proof fn law_known_errors(known: KnownError)
    ensures
        known_error(known).number == known.0,
        known_error(known).reason == known.1@,
        known_error(known).message == known.2@,
        known == BAD_REQUEST ==> {
            &&& known.0 == 400
            &&& known.1@ == "bad_request"@
            &&& known.2@
                == "The server is unable to fulfil the client request because the request is malformed."@
        },
        known == BAD_REQUEST_FILTER_INVALID ==> {
            &&& known.0 == 400
            &&& known.1@ == "filter_invalid"@
            &&& known.2@ == "Filter requested on non-primitive type."@
        },
        known == NOT_FOUND_INVALID_PATH ==> {
            &&& known.0 == 404
            &&& known.1@ == "invalid_path"@
            &&& known.2@ == "The specified data path does not exist."@
        },
        known == NOT_FOUND_INVALID_SUBSCRIPTION_ID ==> {
            &&& known.0 == 404
            &&& known.1@ == "invalid_subscriptionId"@
            &&& known.2@ == "The specified subscription was not found."@
        },
{
}

/// The error of a status code carries the code, and its phrase as both texts; both are
/// empty where it has no phrase.
pub proof fn law_status_errors(code: u16, phrase: Option<Seq<char>>)
    ensures
        phrase_error(code, phrase).number == code,
        phrase_error(code, phrase).reason == phrase_error(code, phrase).message,
        phrase matches Some(text) ==> phrase_error(code, phrase).reason == text,
        phrase is None ==> phrase_error(code, phrase).reason.len() == 0,
        status_error(code) == phrase_error(code, status_phrase(code)),
        INTERNAL_SERVER_ERROR == 500,
        NOT_IMPLEMENTED == 501,
{
}

/// An error response shows its kind and the names, the error and the time that it carries,
/// and nothing else; an error shows its number and its texts.
pub proof fn law_error_responses_show_what_they_carry(response: ActionErrorResponse)
    ensures
        match response {
            ActionErrorResponse::Authorize { request_id, error, timestamp } => {
                &&& response@.topic == Topic::Authorize
                &&& response@.answers == Some(request_id)
                &&& response@.subscription_id is None
                &&& response@.error == error@
                &&& response@.timestamp == timestamp
            },
            ActionErrorResponse::GetMetadata { request_id, error, timestamp } => {
                &&& response@.topic == Topic::GetMetadata
                &&& response@.answers == Some(request_id)
                &&& response@.subscription_id is None
                &&& response@.error == error@
                &&& response@.timestamp == timestamp
            },
            ActionErrorResponse::Get { request_id, error, timestamp } => {
                &&& response@.topic == Topic::Get
                &&& response@.answers == Some(request_id)
                &&& response@.subscription_id is None
                &&& response@.error == error@
                &&& response@.timestamp == timestamp
            },
            ActionErrorResponse::SetSignal { request_id, error, timestamp } => {
                &&& response@.topic == Topic::SetSignal
                &&& response@.answers == Some(request_id)
                &&& response@.subscription_id is None
                &&& response@.error == error@
                &&& response@.timestamp == timestamp
            },
            ActionErrorResponse::Subscribe { request_id, error, timestamp } => {
                &&& response@.topic == Topic::Subscribe
                &&& response@.answers == Some(request_id)
                &&& response@.subscription_id is None
                &&& response@.error == error@
                &&& response@.timestamp == timestamp
            },
            ActionErrorResponse::Subscription { subscription_id, error, timestamp } => {
                &&& response@.topic == Topic::Subscription
                &&& response@.answers is None
                &&& response@.subscription_id == Some(subscription_id)
                &&& response@.error == error@
                &&& response@.timestamp == timestamp
            },
            ActionErrorResponse::Unsubscribe { request_id, subscription_id, error, timestamp } => {
                &&& response@.topic == Topic::Unsubscribe
                &&& response@.answers == Some(request_id)
                &&& response@.subscription_id == Some(subscription_id)
                &&& response@.error == error@
                &&& response@.timestamp == timestamp
            },
        },
        forall|error: crate::api_error::ActionError|
            {
                &&& (#[trigger] error@).number == error.number
                &&& error@.reason == error.reason@
                &&& error@.message == error.message@
            },
{
}

/// A response succeeds exactly if its model does, with the same content, and a notice is
/// there exactly if its model is.
pub proof fn law_response_models(response: Response, success: ActionSuccessResponse)
    ensures
        response == Ok::<_, ActionErrorResponse>(success) <==> response_model(response) == Ok::<
            _,
            ErrorResponseModel,
        >(success),
        response matches Err(error) ==> response_model(response) == Err::<
            ActionSuccessResponse,
            _,
        >(error@),
        notice_model(Some(response)) == Some(response_model(response)),
        notice_model(None) is None,
{
}

/// The interval that filters ask for is the one in them, and a timer keeps to it, down to
/// one second.
pub proof fn law_intervals(filters: Filters, interval: u64)
    ensures
        interval_of(Some(filters)) == filters.interval,
        interval_of(None) is None,
        period(interval) >= 1,
        interval >= 1 ==> period(interval) == interval,
        period(0) == 1,
{
}

/// Whether a request carries an identifier.
pub open spec fn carries(action: Action, id: ReqID) -> bool {
    ||| action matches Action::Authorize { request_id, .. } && request_id == id
    ||| action matches Action::GetMetadata { request_id, .. } && request_id == id
    ||| action matches Action::Get { request_id, .. } && request_id == id
    ||| action matches Action::SetSignal { request_id, .. } && request_id == id
    ||| action matches Action::Subscribe { request_id, .. } && request_id == id
    ||| action matches Action::Unsubscribe { request_id, .. } && request_id == id
    ||| action matches Action::UnsubscribeAll { request_id } && request_id == id
}

/// A request has exactly the identifier that it carries; a successful response answers
/// exactly the request whose identifier it carries, and a notification answers none.
pub proof fn law_identifiers_are_carried(
    action: Action,
    response: ActionSuccessResponse,
    id: ReqID,
)
    ensures
        action.request_id() == id <==> carries(action, id),
        response.answers() == Some(id) <==> {
            ||| response matches ActionSuccessResponse::Get { request_id, .. } && request_id == id
            ||| response matches ActionSuccessResponse::Subscribe { request_id, .. } && request_id
                == id
            ||| response matches ActionSuccessResponse::Unsubscribe { request_id, .. } && request_id
                == id
            ||| response matches ActionSuccessResponse::UnsubscribeAll { request_id, .. }
                && request_id == id
        },
{
}

} // verus!
