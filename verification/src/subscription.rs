//! One subscription of a client.
use crate::api_error::{
    known_error, new_subscription_notification_error, subscription_error_response, ActionError,
    ActionErrorResponse, ErrorResponseModel, BAD_REQUEST_FILTER_INVALID,
};
use crate::api_type::{interval_of, ActionPath, ActionSuccessResponse, Filters};
use crate::filter::{FilterError, Verdict};
use crate::identifier::SubscriptionID;
use serde_json::Value;
use std::time::SystemTime;
use vstd::prelude::*;

verus! {

/// What the service sends to a client.
pub type Response = Result<ActionSuccessResponse, ActionErrorResponse>;

/// A [`Response`] with the texts of an error as their characters.
pub type ResponseModel = Result<ActionSuccessResponse, ErrorResponseModel>;

/// The model of a response.
pub open spec fn response_model(response: Response) -> ResponseModel {
    match response {
        Ok(success) => Ok(success),
        Err(error) => Err(error@),
    }
}

/// The model of a response that may be absent.
pub open spec fn notice_model(notice: Option<Response>) -> Option<ResponseModel> {
    match notice {
        Some(response) => Some(response_model(response)),
        None => None,
    }
}

/// A client subscription.
#[derive(Debug)]
pub struct Subscription {
    /// Names the subscription to the client, also in each notification.
    subscription_id: SubscriptionID,
    /// Signal path.
    path: ActionPath,
    /// Filters that the client asked for when subscribing.
    filters: Option<Filters>,
    /// Latest known signal value. It may not have been sent to the client yet,
    /// where the filters held it back or the subscription is served at an interval.
    pub latest_signal_value: Option<Value>,
    /// Last value sent to the client, with the moment when it was sent.
    pub last_signal_value_client: Option<(SystemTime, Value)>,
}

/// A [`Subscription`] with its path as characters.
#[verifier::ext_equal]
pub struct SubscriptionModel {
    pub subscription_id: SubscriptionID,
    pub path: Seq<char>,
    pub filters: Option<Filters>,
    pub latest_signal_value: Option<Value>,
    pub last_signal_value_client: Option<(SystemTime, Value)>,
}

impl View for Subscription {
    type V = SubscriptionModel;

    closed spec fn view(&self) -> SubscriptionModel {
        SubscriptionModel {
            subscription_id: self.subscription_id,
            path: self.path@,
            filters: self.filters,
            latest_signal_value: self.latest_signal_value,
            last_signal_value_client: self.last_signal_value_client,
        }
    }
}

impl SubscriptionModel {
    /// A subscription of which nothing was reported yet.
    pub open spec fn fresh(
        subscription_id: SubscriptionID,
        path: Seq<char>,
        filters: Option<Filters>,
    ) -> Self {
        SubscriptionModel {
            subscription_id,
            path,
            filters,
            latest_signal_value: None,
            last_signal_value_client: None,
        }
    }

    /// Whether the client is served at an interval instead of on each update.
    pub open spec fn is_periodic(self) -> bool {
        interval_of(self.filters) is Some
    }

    /// The subscription after a signal got a new value.
    pub open spec fn after_signal(self, path: Seq<char>, value: Value) -> Self {
        if self.path == path {
            SubscriptionModel { latest_signal_value: Some(value), ..self }
        } else {
            self
        }
    }

    /// The subscription after its filters gave a verdict on a value. The value is known
    /// from then on, sent or not, unless a later one is known already; it counts as sent
    /// where it passes.
    pub open spec fn after_verdict(
        self,
        value: Value,
        verdict: Verdict,
        now: SystemTime,
    ) -> Self {
        SubscriptionModel {
            latest_signal_value: if self.latest_signal_value is None {
                Some(value)
            } else {
                self.latest_signal_value
            },
            last_signal_value_client: if verdict == Ok::<bool, FilterError>(true) {
                Some((now, value))
            } else {
                self.last_signal_value_client
            },
            ..self
        }
    }

    /// What the client is told after the filters gave a verdict on a value.
    pub open spec fn notice(
        self,
        value: Value,
        verdict: Verdict,
        timestamp: u128,
    ) -> Option<ResponseModel> {
        match verdict {
            Ok(true) => Some(
                Ok(
                    ActionSuccessResponse::Subscription {
                        subscription_id: self.subscription_id,
                        value,
                        timestamp,
                    },
                ),
            ),
            Ok(false) => None,
            Err(FilterError::ValueIsNotANumber) => Some(
                Err(
                    subscription_error_response(
                        self.subscription_id,
                        known_error(BAD_REQUEST_FILTER_INVALID),
                        timestamp,
                    ),
                ),
            ),
        }
    }
}

impl Clone for Subscription {
    fn clone(&self) -> (copy: Self)
        ensures
            copy@ == self@,
    {
        Subscription {
            subscription_id: self.subscription_id,
            path: self.path.clone(),
            filters: self.filters,
            latest_signal_value: match &self.latest_signal_value {
                Some(value) => Some(value.clone()),
                None => None,
            },
            last_signal_value_client: match &self.last_signal_value_client {
                Some((sent, value)) => Some((*sent, value.clone())),
                None => None,
            },
        }
    }
}

impl Subscription {
    /// A subscription of which nothing was reported yet.
    pub fn new(
        subscription_id: SubscriptionID,
        path: ActionPath,
        filters: Option<Filters>,
    ) -> (subscription: Self)
        ensures
            subscription@ == SubscriptionModel::fresh(subscription_id, path@, filters),
    {
        Subscription {
            subscription_id,
            path,
            filters,
            latest_signal_value: None,
            last_signal_value_client: None,
        }
    }

    /// The name of the subscription.
    pub fn subscription_id(&self) -> (id: SubscriptionID)
        ensures
            id == self@.subscription_id,
    {
        self.subscription_id
    }

    /// The path of the signal.
    pub fn path(&self) -> (path: &ActionPath)
        ensures
            path@ == self@.path,
    {
        &self.path
    }

    /// The filters that the client asked for.
    pub fn filters(&self) -> (filters: Option<Filters>)
        ensures
            filters == self@.filters,
    {
        self.filters
    }

    /// The value sent last, with the moment when it was sent.
    pub fn last_sent(&self) -> (sent: &Option<(SystemTime, Value)>)
        ensures
            *sent == self@.last_signal_value_client,
    {
        &self.last_signal_value_client
    }

    /// The latest known value of the signal.
    pub fn latest(&self) -> (latest: &Option<Value>)
        ensures
            *latest == self@.latest_signal_value,
    {
        &self.latest_signal_value
    }

    /// A line that names the subscription's path.
    pub fn to_text(&self) -> (text: String)
        ensures
            text@ == "Subscription path: "@ + self@.path,
    {
        "Subscription path: ".to_string().concat(self.path.0.as_str())
    }

    /// Takes note of a new value of a signal, if it is the one subscribed to.
    pub(crate) fn observe(&mut self, path: &ActionPath, value: &Value)
        ensures
            final(self)@ == old(self)@.after_signal(path@, *value),
    {
        if self.path.0 == path.0 {
            self.latest_signal_value = Some(value.clone());
        }
    }

    /// Turns the verdict of the subscription's filters on `value` into what the
    /// client is told: a notification where the value passes, nothing where it does
    /// not, an error where there is no verdict.
    pub fn notify_at(
        &mut self,
        value: &Value,
        verdict: Verdict,
        now: SystemTime,
        timestamp: u128,
    ) -> (notice: Option<Response>)
        ensures
            final(self)@ == old(self)@.after_verdict(*value, verdict, now),
            notice_model(notice) == old(self)@.notice(*value, verdict, timestamp),
            notice is None <==> verdict == Ok::<bool, FilterError>(false),
            notice is Some && notice->0 is Ok <==> verdict == Ok::<bool, FilterError>(true),
            notice is Some && notice->0 is Ok ==> notice->0->Ok_0 == (
            ActionSuccessResponse::Subscription {
                subscription_id: old(self)@.subscription_id,
                value: *value,
                timestamp,
            }),
            notice is Some && notice->0 is Err ==> {
                &&& notice->0->Err_0 is Subscription
                &&& notice->0->Err_0->Subscription_subscription_id == old(self)@.subscription_id
                &&& notice->0->Err_0->Subscription_timestamp == timestamp
                &&& notice->0->Err_0->Subscription_error@ == known_error(
                    BAD_REQUEST_FILTER_INVALID,
                )
            },
    {
        if self.latest_signal_value.is_none() {
            self.latest_signal_value = Some(value.clone());
        }
        match verdict {
            Ok(true) => {
                let response = ActionSuccessResponse::Subscription {
                    subscription_id: self.subscription_id,
                    value: value.clone(),
                    timestamp,
                };
                self.last_signal_value_client = Some((now, value.clone()));
                Some(Ok(response))
            },
            Ok(false) => None,
            Err(FilterError::ValueIsNotANumber) => {
                let response = new_subscription_notification_error(
                    self.subscription_id,
                    ActionError::from(BAD_REQUEST_FILTER_INVALID),
                    timestamp,
                );
                Some(Err(response))
            },
        }
    }
}

} // verus!
