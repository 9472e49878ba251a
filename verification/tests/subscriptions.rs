use serde_json::Value;
use std::time::SystemTime;
use vehicle_information_service::api_error::{ActionError, ActionErrorResponse};
use vehicle_information_service::api_type::{
    period, Action, ActionPath, ActionSuccessResponse, Filters,
};
use vehicle_information_service::client::{Client, ClientEvent, ClientStep, PeriodicTask};
use vehicle_information_service::filter::FilterError;
use vehicle_information_service::identifier::{ReqID, SubscriptionID, Uuid};
use vehicle_information_service::subscription::Subscription;

fn sub(bits: u128) -> SubscriptionID {
    SubscriptionID::SubscriptionIDUUID(Uuid { bits })
}

fn path(text: &str) -> ActionPath {
    ActionPath::from(text)
}

const REQ: ReqID = ReqID::ReqIDInt(104);

fn every(secs: u64) -> Option<Filters> {
    Some(Filters { interval: Some(secs), min_change: None })
}

#[test]
fn subscribers_are_queued_in_order() {
    let mut client = Client::new();
    client.handle_subscribe(path("a"), REQ, None, sub(1), 0);
    client.handle_subscribe(path("b"), REQ, None, sub(2), 0);
    client.handle_subscribe(path("a"), REQ, None, sub(3), 0);
    let queue = client.handle_signal(path("a"), Value::from(5));
    assert_eq!(queue, vec![(sub(1), Value::from(5)), (sub(3), Value::from(5))]);
    assert!(client.handle_signal(path("c"), Value::from(5)).is_empty());
}

#[test]
fn subscribing_is_confirmed_with_the_new_identifier() {
    let mut client = Client::new();
    let answer = client.handle_subscribe(path("a"), REQ, None, sub(9), 42);
    assert_eq!(
        answer.response,
        Ok(ActionSuccessResponse::Subscribe {
            request_id: REQ,
            subscription_id: sub(9),
            timestamp: 42
        })
    );
    assert_eq!(answer.task, None);
}

#[test]
fn drawn_subscriptions_have_different_names() {
    let mut client = Client::new();
    let mut names = vec![];
    for _ in 0..2 {
        let action = Action::Subscribe { path: path("a"), filters: None, request_id: REQ };
        match client.dispatch_message(action).response {
            Ok(ActionSuccessResponse::Subscribe { request_id, subscription_id, .. }) => {
                assert_eq!(request_id, REQ);
                names.push(subscription_id);
            }
            other => panic!("Unexpected response: {:#?}", other),
        }
    }
    assert_ne!(names[0], names[1]);
    let queue = client.handle_signal(path("a"), Value::from(1));
    assert_eq!(queue, vec![(names[0], Value::from(1)), (names[1], Value::from(1))]);
}

#[test]
fn periodic_subscribers_get_the_current_value_when_the_timer_fires() {
    let mut client = Client::new();
    let answer = client.handle_subscribe(path("a"), REQ, every(3), sub(1), 0);
    assert_eq!(answer.task, Some(PeriodicTask { subscription_id: sub(1), interval_secs: 3 }));
    assert_eq!(client.step(ClientEvent::PeriodicNotify(sub(1))), ClientStep::Idle);
    assert!(client.handle_signal(path("a"), Value::from(5)).is_empty());
    assert!(client.handle_signal(path("a"), Value::from(6)).is_empty());
    assert_eq!(client.periodic_value(sub(1)), Some(Value::from(6)));
    assert_eq!(
        client.step(ClientEvent::PeriodicNotify(sub(1))),
        ClientStep::Judge(sub(1), Value::from(6))
    );
    assert_eq!(client.step(ClientEvent::PeriodicNotify(sub(2))), ClientStep::Idle);
}

#[test]
fn filters_without_an_interval_are_served_on_each_update() {
    let mut client = Client::new();
    let filters = Some(Filters { interval: None, min_change: Some(2) });
    let answer = client.handle_subscribe(path("a"), REQ, filters, sub(1), 0);
    assert_eq!(answer.task, None);
    assert_eq!(client.handle_signal(path("a"), Value::from(1)).len(), 1);
    assert_eq!(client.subscription(sub(1)).unwrap().filters(), filters);
}

#[test]
fn a_passing_value_is_told_and_remembered() {
    let mut client = Client::new();
    client.handle_subscribe(path("a"), REQ, None, sub(1), 0);
    let now = SystemTime::now();
    let notice = client.notify_subscriber_at(sub(1), &Value::from(5), Ok(true), now, 77);
    assert_eq!(
        notice,
        Some(Ok(ActionSuccessResponse::Subscription {
            subscription_id: sub(1),
            value: Value::from(5),
            timestamp: 77
        }))
    );
    assert_eq!(
        *client.subscription(sub(1)).unwrap().last_sent(),
        Some((now, Value::from(5)))
    );
}

#[test]
fn a_value_that_is_held_back_is_not_told() {
    let mut client = Client::new();
    client.handle_subscribe(path("a"), REQ, None, sub(1), 0);
    let notice = client.notify_subscriber(sub(1), &Value::from(5), Ok(false));
    assert_eq!(notice, None);
    assert_eq!(*client.subscription(sub(1)).unwrap().last_sent(), None);
}

#[test]
fn a_value_that_is_no_number_is_an_error() {
    let mut client = Client::new();
    client.handle_subscribe(path("a"), REQ, None, sub(1), 0);
    let notice = client.notify_subscriber_at(
        sub(1),
        &Value::from("text"),
        Err(FilterError::ValueIsNotANumber),
        SystemTime::now(),
        3,
    );
    assert_eq!(
        notice,
        Some(Err(ActionErrorResponse::Subscription {
            subscription_id: sub(1),
            error: ActionError {
                number: 400,
                reason: "filter_invalid".to_string(),
                message: "Filter requested on non-primitive type.".to_string(),
            },
            timestamp: 3,
        }))
    );
    assert_eq!(*client.subscription(sub(1)).unwrap().last_sent(), None);
}

#[test]
fn notifications_are_sent_at_the_current_moment() {
    let mut client = Client::new();
    client.handle_subscribe(path("a"), REQ, None, sub(1), 0);
    let before = SystemTime::now();
    let notice = client.notify_subscriber(sub(1), &Value::from(5), Ok(true));
    let after = SystemTime::now();
    assert!(notice.is_some());
    match client.subscription(sub(1)).unwrap().last_sent() {
        Some((moment, value)) => {
            assert!(before <= *moment && *moment <= after);
            assert_eq!(*value, Value::from(5));
        }
        None => panic!("not remembered"),
    }
}

#[test]
fn every_subscription_to_a_path_knows_the_latest_value() {
    let mut client = Client::new();
    client.handle_subscribe(path("a"), REQ, None, sub(1), 0);
    client.handle_subscribe(path("a"), REQ, every(1), sub(2), 0);
    client.handle_subscribe(path("b"), REQ, None, sub(3), 0);
    assert_eq!(*client.subscription(sub(1)).unwrap().latest(), None);
    client.handle_signal(path("a"), Value::from(8));
    assert_eq!(*client.subscription(sub(1)).unwrap().latest(), Some(Value::from(8)));
    assert_eq!(*client.subscription(sub(2)).unwrap().latest(), Some(Value::from(8)));
    assert_eq!(*client.subscription(sub(3)).unwrap().latest(), None);
}

#[test]
fn a_judged_value_is_known_whether_or_not_it_was_sent() {
    for verdict in vec![Ok(true), Ok(false), Err(FilterError::ValueIsNotANumber)] {
        let mut client = Client::new();
        client.handle_signal(path("a"), Value::from(5));
        client.handle_subscribe(path("a"), REQ, every(1), sub(1), 0);
        assert_eq!(*client.subscription(sub(1)).unwrap().latest(), None);
        assert_eq!(
            client.step(ClientEvent::PeriodicNotify(sub(1))),
            ClientStep::Judge(sub(1), Value::from(5))
        );
        client.notify_subscriber(sub(1), &Value::from(5), verdict);
        assert_eq!(*client.subscription(sub(1)).unwrap().latest(), Some(Value::from(5)));
    }
}

#[test]
fn a_late_verdict_leaves_the_newer_value_known() {
    let mut client = Client::new();
    client.handle_subscribe(path("a"), REQ, None, sub(1), 0);
    client.handle_signal(path("a"), Value::from(5));
    client.handle_signal(path("a"), Value::from(6));
    let now = SystemTime::now();
    client.notify_subscriber_at(sub(1), &Value::from(5), Ok(true), now, 0);
    let subscription = client.subscription(sub(1)).unwrap();
    assert_eq!(*subscription.latest(), Some(Value::from(6)));
    assert_eq!(*subscription.last_sent(), Some((now, Value::from(5))));
}

#[test]
fn an_interval_of_zero_stands_for_one_second() {
    let mut client = Client::new();
    let answer = client.handle_subscribe(path("a"), REQ, every(0), sub(1), 0);
    assert!(answer.response.is_ok());
    assert_eq!(answer.task, Some(PeriodicTask { subscription_id: sub(1), interval_secs: 1 }));
    client.handle_signal(path("a"), Value::from(5));
    assert_eq!(client.periodic_value(sub(1)), Some(Value::from(5)));
    assert_eq!(period(0), 1);
    assert_eq!(period(1), 1);
    assert_eq!(period(u64::MAX), u64::MAX);
}

#[test]
fn a_copy_of_a_subscription_is_the_same() {
    let mut client = Client::new();
    client.handle_subscribe(path("a"), REQ, every(2), sub(1), 0);
    let now = SystemTime::now();
    client.notify_subscriber_at(sub(1), &Value::from(5), Ok(true), now, 0);
    let copy = client.subscription(sub(1)).unwrap().clone();
    assert_eq!(copy.subscription_id(), sub(1));
    assert_eq!(*copy.path(), path("a"));
    assert_eq!(copy.filters(), every(2));
    assert_eq!(*copy.latest(), Some(Value::from(5)));
    assert_eq!(*copy.last_sent(), Some((now, Value::from(5))));
}

#[test]
fn an_ended_subscription_is_silent() {
    let mut client = Client::new();
    client.handle_subscribe(path("a"), REQ, None, sub(1), 0);
    client.handle_subscribe(path("a"), REQ, None, sub(2), 0);
    assert_eq!(
        client.handle_unsubscribe(REQ, sub(1), 8),
        Ok(ActionSuccessResponse::Unsubscribe {
            request_id: REQ,
            subscription_id: sub(1),
            timestamp: 8
        })
    );
    assert_eq!(
        client.handle_signal(path("a"), Value::from(1)),
        vec![(sub(2), Value::from(1))]
    );
    assert_eq!(
        client.step(ClientEvent::SubscriptionNotify(sub(1), Value::from(1))),
        ClientStep::Idle
    );
    assert_eq!(client.notify_subscriber(sub(1), &Value::from(1), Ok(true)), None);
    assert!(client.subscription(sub(1)).is_none());
}

#[test]
fn an_ended_periodic_subscription_is_silent() {
    let mut client = Client::new();
    client.handle_signal(path("a"), Value::from(1));
    client.handle_subscribe(path("a"), REQ, every(1), sub(1), 0);
    assert_eq!(client.periodic_value(sub(1)), Some(Value::from(1)));
    assert!(client.handle_unsubscribe(REQ, sub(1), 8).is_ok());
    assert_eq!(client.periodic_value(sub(1)), None);
}

#[test]
fn ending_an_unknown_subscription_is_refused() {
    let mut client = Client::new();
    client.handle_subscribe(path("a"), REQ, None, sub(1), 0);
    assert_eq!(
        client.handle_unsubscribe(REQ, sub(2), 8),
        Err(ActionErrorResponse::Unsubscribe {
            request_id: REQ,
            subscription_id: sub(2),
            error: ActionError {
                number: 404,
                reason: "invalid_subscriptionId".to_string(),
                message: "The specified subscription was not found.".to_string(),
            },
            timestamp: 8,
        })
    );
    assert_eq!(client.handle_signal(path("a"), Value::from(1)).len(), 1);
}

#[test]
fn ending_all_subscriptions_keeps_the_signal_values() {
    let mut client = Client::new();
    client.handle_subscribe(path("a"), REQ, None, sub(1), 0);
    client.handle_subscribe(path("b"), REQ, every(1), sub(2), 0);
    client.handle_signal(path("a"), Value::from(4));
    assert_eq!(
        client.handle_unsubscribe_all(REQ, 6),
        Ok(ActionSuccessResponse::UnsubscribeAll { request_id: REQ, timestamp: 6 })
    );
    assert!(client.handle_signal(path("b"), Value::from(1)).is_empty());
    assert_eq!(client.periodic_value(sub(2)), None);
    assert_eq!(
        client.handle_get(path("a"), REQ, 6),
        Ok(ActionSuccessResponse::Get { request_id: REQ, value: Value::from(4), timestamp: 6 })
    );
}

#[test]
fn ending_all_subscriptions_ends_each() {
    let mut clients = vec![];
    for _ in 0..2 {
        let mut client = Client::new();
        client.handle_subscribe(path("a"), REQ, None, sub(1), 0);
        client.handle_subscribe(path("a"), REQ, None, sub(2), 0);
        client.handle_subscribe(path("b"), REQ, every(1), sub(3), 0);
        client.handle_signal(path("b"), Value::from(4));
        clients.push(client);
    }
    clients[0].handle_unsubscribe_all(REQ, 6).unwrap();
    for bits in vec![2, 3, 1] {
        clients[1].handle_unsubscribe(REQ, sub(bits), 6).unwrap();
    }
    for client in clients.iter_mut() {
        for bits in 1..4 {
            assert!(client.subscription(sub(bits)).is_none());
            assert_eq!(client.periodic_value(sub(bits)), None);
        }
        assert!(client.handle_signal(path("a"), Value::from(1)).is_empty());
        assert_eq!(
            client.handle_get(path("b"), REQ, 6),
            Ok(ActionSuccessResponse::Get { request_id: REQ, value: Value::from(4), timestamp: 6 })
        );
        assert_eq!(
            client.handle_unsubscribe_all(REQ, 7),
            Ok(ActionSuccessResponse::UnsubscribeAll { request_id: REQ, timestamp: 7 })
        );
    }
}

#[test]
fn unsubscribing_undoes_subscribing() {
    let mut client = Client::new();
    client.handle_subscribe(path("a"), REQ, None, sub(1), 0);
    let before = client.handle_signal(path("a"), Value::from(1));
    client.handle_subscribe(path("a"), REQ, None, sub(2), 0);
    client.handle_unsubscribe(REQ, sub(2), 0).unwrap();
    assert_eq!(client.handle_signal(path("a"), Value::from(1)), before);
}

fn refused(action: Action) -> (ReqID, ActionError) {
    let mut client = Client::new();
    match client.dispatch_message(action).response {
        Err(ActionErrorResponse::SetSignal { request_id, error, .. }) => (request_id, error),
        Err(ActionErrorResponse::GetMetadata { request_id, error, .. }) => (request_id, error),
        Err(ActionErrorResponse::Authorize { request_id, error, .. }) => (request_id, error),
        other => panic!("Unexpected response: {:#?}", other),
    }
}

#[test]
fn unsupported_requests_are_refused() {
    let internal = ActionError {
        number: 500,
        reason: "Internal Server Error".to_string(),
        message: "Internal Server Error".to_string(),
    };
    let set = Action::SetSignal { path: path("a"), value: Value::from(1), request_id: REQ };
    assert_eq!(refused(set), (REQ, internal));
    let metadata = Action::GetMetadata { path: path("a"), request_id: ReqID::ReqIDInt(2) };
    let (request_id, error) = refused(metadata);
    assert_eq!((request_id, error.number), (ReqID::ReqIDInt(2), 500));
    let authorize = Action::Authorize { tokens: Value::Null, request_id: ReqID::ReqIDInt(3) };
    let (request_id, error) = refused(authorize);
    assert_eq!((request_id, error.number), (ReqID::ReqIDInt(3), 500));
}

#[test]
fn each_event_gets_its_step() {
    let mut client = Client::new();
    client.handle_subscribe(path("a"), REQ, None, sub(1), 0);
    assert_eq!(
        client.step(ClientEvent::Signal(path("a"), Value::from(2))),
        ClientStep::Queue(vec![(sub(1), Value::from(2))])
    );
    assert_eq!(
        client.step(ClientEvent::SubscriptionNotify(sub(1), Value::from(2))),
        ClientStep::Judge(sub(1), Value::from(2))
    );
    let get = Action::Get { path: path("a"), request_id: REQ };
    match client.step(ClientEvent::Message(get)) {
        ClientStep::Respond(answer) => {
            assert_eq!(answer.task, None);
            match answer.response {
                Ok(ActionSuccessResponse::Get { request_id, value, .. }) => {
                    assert_eq!((request_id, value), (REQ, Value::from(2)));
                }
                other => panic!("Unexpected response: {:#?}", other),
            }
        }
        other => panic!("Unexpected step: {:#?}", other),
    }
}

#[test]
fn a_subscription_names_its_path() {
    let subscription = Subscription::new(sub(5), path("Vehicle.Speed"), None);
    assert_eq!(subscription.to_text(), "Subscription path: Vehicle.Speed");
    assert_eq!(subscription.subscription_id(), sub(5));
    assert_eq!(subscription.path(), &path("Vehicle.Speed"));
}
