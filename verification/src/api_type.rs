//! Requests and successful responses.
use crate::identifier::{ReqID, SubscriptionID};
use serde_json::Value;
use vstd::prelude::*;

verus! {

/// The path of a signal, such as `Signal.Vehicle.Speed`.
#[derive(Debug, PartialEq)]
pub struct ActionPath(pub String);

impl View for ActionPath {
    type V = Seq<char>;

    open spec fn view(&self) -> Seq<char> {
        self.0@
    }
}

impl Clone for ActionPath {
    fn clone(&self) -> (copy: Self)
        ensures
            copy@ == self@,
    {
        ActionPath(self.0.clone())
    }
}

impl From<&str> for ActionPath {
    fn from(text: &str) -> (path: Self)
        ensures
            path@ == text@,
    {
        ActionPath(text.to_string())
    }
}

impl vstd::std_specs::convert::FromSpecImpl<&str> for ActionPath {
    open spec fn obeys_from_spec() -> bool {
        false
    }

    open spec fn from_spec(text: &str) -> Self {
        arbitrary()
    }
}

/// Which updates of a signal a subscriber asked for.
#[derive(Clone, Copy, Debug, PartialEq, Eq, Structural)]
pub struct Filters {
    /// Send the current value once in so many seconds, instead of each update. Zero
    /// stands for one second, the shortest interval there is.
    pub interval: Option<u64>,
    /// Send only updates that differ by at least so much from the value sent last.
    pub min_change: Option<u64>,
}

/// The interval between two notifications that the filters ask for, where they ask for
/// notifications at an interval.
pub open spec fn interval_of(filters: Option<Filters>) -> Option<u64> {
    match filters {
        Some(f) => f.interval,
        None => None,
    }
}

/// The seconds between two notifications for an interval that was asked for: at least one.
pub open spec fn spec_period(interval: u64) -> u64 {
    if interval == 0 {
        1
    } else {
        interval
    }
}

/// The seconds between two notifications for an interval that was asked for: at least one.
#[verifier::when_used_as_spec(spec_period)]
pub fn period(interval: u64) -> (secs: u64)
    ensures
        secs == spec_period(interval),
        secs >= 1,
{
    if interval == 0 {
        1
    } else {
        interval
    }
}

/// A request of a client.
#[derive(Debug, PartialEq)]
pub enum Action {
    /// Present access tokens.
    Authorize { tokens: Value, request_id: ReqID },
    /// Ask which signals there are.
    GetMetadata { path: ActionPath, request_id: ReqID },
    /// Read a signal once.
    Get { path: ActionPath, request_id: ReqID },
    /// Set a signal.
    SetSignal { path: ActionPath, value: Value, request_id: ReqID },
    /// Be notified when a signal changes.
    Subscribe { path: ActionPath, filters: Option<Filters>, request_id: ReqID },
    /// Stop the notifications of one subscription.
    Unsubscribe { subscription_id: SubscriptionID, request_id: ReqID },
    /// Stop the notifications of all subscriptions.
    UnsubscribeAll { request_id: ReqID },
}

impl Action {
    /// The identifier that the response to the request carries.
    pub open spec fn request_id(self) -> ReqID {
        match self {
            Action::Authorize { request_id, .. } => request_id,
            Action::GetMetadata { request_id, .. } => request_id,
            Action::Get { request_id, .. } => request_id,
            Action::SetSignal { request_id, .. } => request_id,
            Action::Subscribe { request_id, .. } => request_id,
            Action::Unsubscribe { request_id, .. } => request_id,
            Action::UnsubscribeAll { request_id } => request_id,
        }
    }
}

/// A response to a request that succeeded, or a notification.
#[derive(Debug, PartialEq)]
pub enum ActionSuccessResponse {
    /// The value of the signal asked for.
    Get { request_id: ReqID, value: Value, timestamp: u128 },
    /// The subscription was made.
    Subscribe { request_id: ReqID, subscription_id: SubscriptionID, timestamp: u128 },
    /// A signal that the client subscribed to has a value to report.
    Subscription { subscription_id: SubscriptionID, value: Value, timestamp: u128 },
    /// The subscription was ended.
    Unsubscribe { request_id: ReqID, subscription_id: SubscriptionID, timestamp: u128 },
    /// All subscriptions were ended.
    UnsubscribeAll { request_id: ReqID, timestamp: u128 },
}

impl ActionSuccessResponse {
    /// The request that is answered; a notification answers none.
    pub open spec fn answers(self) -> Option<ReqID> {
        match self {
            ActionSuccessResponse::Get { request_id, .. } => Some(request_id),
            ActionSuccessResponse::Subscribe { request_id, .. } => Some(request_id),
            ActionSuccessResponse::Subscription { .. } => None,
            ActionSuccessResponse::Unsubscribe { request_id, .. } => Some(request_id),
            ActionSuccessResponse::UnsubscribeAll { request_id, .. } => Some(request_id),
        }
    }
}

} // verus!
