use serde_json::Value;
use vehicle_information_service::api_error::{ActionErrorResponse, ActionError};
use vehicle_information_service::api_type::{Action, ActionPath, ActionSuccessResponse};
use vehicle_information_service::client::Client;
use vehicle_information_service::identifier::{ReqID, SubscriptionID, Uuid};
use vehicle_information_service::vis_client::{
    GetStep, PendingGet, PendingSubscribe, PendingUnsubscribeAll, RawStep, ServerFrame,
    SubscribeStep, UnsubscribeAllStep, VISClientError,
};

const OWN: ReqID = ReqID::ReqIDInt(1);
const OTHER: ReqID = ReqID::ReqIDInt(2);

fn sub(bits: u128) -> SubscriptionID {
    SubscriptionID::SubscriptionIDUUID(Uuid { bits })
}

fn json_error() -> serde_json::Error {
    serde_json::from_str::<u8>("no number").unwrap_err()
}

fn success(response: ActionSuccessResponse) -> ServerFrame {
    ServerFrame::Text { text: "{}".to_string(), parsed: Ok(response) }
}

fn other_text(text: &str) -> ServerFrame {
    ServerFrame::Text { text: text.to_string(), parsed: Err(json_error()) }
}

fn failed() -> ServerFrame {
    ServerFrame::Failed(tungstenite::Error::ConnectionClosed)
}

fn value_response(request_id: ReqID) -> ActionSuccessResponse {
    ActionSuccessResponse::Get { request_id, value: Value::from(3), timestamp: 0 }
}

#[test]
fn a_get_waits_for_its_own_response() {
    let (pending, action) = PendingGet::with_request_id(ActionPath::from("a"), OWN);
    assert_eq!(action, Action::Get { path: ActionPath::from("a"), request_id: OWN });
    assert!(matches!(pending.step(success(value_response(OTHER))), GetStep::Wait));
    let all_ended = ActionSuccessResponse::UnsubscribeAll { request_id: OWN, timestamp: 0 };
    assert!(matches!(pending.step(success(all_ended)), GetStep::Wait));
    assert!(matches!(pending.step(ServerFrame::Other), GetStep::Wait));
    match pending.step(success(value_response(OWN))) {
        GetStep::Done(value) => assert_eq!(value, Value::from(3)),
        other => panic!("Unexpected step: {:#?}", other),
    }
}

#[test]
fn a_get_fails_with_the_connection() {
    let (pending, _) = PendingGet::with_request_id(ActionPath::from("a"), OWN);
    assert!(matches!(
        pending.step(failed()),
        GetStep::Fail(VISClientError::WebSocketError(tungstenite::Error::ConnectionClosed))
    ));
}

#[test]
fn a_get_reads_a_text_that_is_no_success_as_a_document() {
    let (pending, _) = PendingGet::with_request_id(ActionPath::from("a"), OWN);
    match pending.step(other_text("{\"error\": [1, true]}")) {
        GetStep::ReadError(document) => {
            assert_eq!(document["error"][0], Value::from(1));
            assert_eq!(document["error"][1], Value::from(true));
        }
        other => panic!("Unexpected step: {:#?}", other),
    }
    assert!(matches!(
        pending.step(other_text("{ no document")),
        GetStep::Fail(VISClientError::SerdeError(_))
    ));
}

#[test]
fn a_text_that_is_no_document_fails_with_the_error_of_its_document() {
    let (pending, _) = PendingGet::with_request_id(ActionPath::from("a"), OWN);
    let expected = serde_json::from_str::<Value>("{ no document").unwrap_err();
    assert_ne!(expected.to_string(), json_error().to_string());
    match pending.step(other_text("{ no document")) {
        GetStep::Fail(VISClientError::SerdeError(error)) => {
            assert_eq!(error.to_string(), expected.to_string());
        }
        other => panic!("Unexpected step: {:#?}", other),
    }
}

/// The first step of a waiting request that is not to wait.
fn outcome(frames: Vec<ServerFrame>) -> Option<GetStep> {
    let (pending, _) = PendingGet::with_request_id(ActionPath::from("a"), OWN);
    for frame in frames {
        match pending.step(frame) {
            GetStep::Wait => {}
            step => return Some(step),
        }
    }
    None
}

#[test]
fn the_first_deciding_frame_ends_a_get() {
    let waiting = || vec![ServerFrame::Other, success(value_response(OTHER))];
    assert!(outcome(waiting()).is_none());
    let mut frames = waiting();
    frames.push(success(value_response(OWN)));
    frames.push(failed());
    assert!(matches!(outcome(frames), Some(GetStep::Done(_))));
    let mut frames = waiting();
    frames.push(failed());
    frames.push(success(value_response(OWN)));
    assert!(matches!(
        outcome(frames),
        Some(GetStep::Fail(VISClientError::WebSocketError(_)))
    ));
    let mut frames = waiting();
    frames.push(other_text("{}"));
    frames.push(success(value_response(OWN)));
    assert!(matches!(outcome(frames), Some(GetStep::ReadError(_))));
}

#[test]
fn a_subscription_hands_out_some_of_the_notifications() {
    let frames = || {
        let mut frames = vec![];
        for (bits, value) in vec![(8, 1), (7, 2)] {
            frames.push(notification(bits, value));
        }
        frames.push(success(ActionSuccessResponse::Subscribe {
            request_id: OWN,
            subscription_id: sub(8),
            timestamp: 0,
        }));
        for (bits, value) in vec![(7, 3), (8, 4), (7, 5), (8, 6)] {
            frames.push(notification(bits, value));
        }
        frames
    };
    let (mut pending, _) = PendingSubscribe::with_request_id(ActionPath::from("a"), None, OWN);
    let mut handed_out = vec![];
    for frame in frames() {
        if let SubscribeStep::Yield(id, value) = pending.step(frame) {
            handed_out.push((id, value));
        }
    }
    assert_eq!(handed_out, vec![(sub(8), Value::from(4)), (sub(8), Value::from(6))]);
    let mut raw = vec![];
    for frame in frames() {
        if let RawStep::Yield(ActionSuccessResponse::Subscription {
            subscription_id, value, ..
        }) = PendingSubscribe::raw_step(frame)
        {
            raw.push((subscription_id, value));
        }
    }
    assert_eq!(raw.len(), 6);
    let mut remaining = raw.into_iter();
    for item in handed_out {
        assert!(remaining.any(|other| other == item));
    }
}

fn notification(bits: u128, value: u8) -> ServerFrame {
    success(ActionSuccessResponse::Subscription {
        subscription_id: sub(bits),
        value: Value::from(value),
        timestamp: 0,
    })
}

#[test]
fn an_error_response_ends_a_get() {
    let refused = ActionErrorResponse::Get {
        request_id: OWN,
        error: ActionError::from_status(500),
        timestamp: 1,
    };
    match PendingGet::error_response(Ok(refused)) {
        VISClientError::VisError(ActionErrorResponse::Get { request_id, error, .. }) => {
            assert_eq!((request_id, error.number), (OWN, 500));
        }
        other => panic!("Unexpected error: {:#?}", other),
    }
    assert!(matches!(
        PendingGet::error_response(Err(json_error())),
        VISClientError::SerdeError(_)
    ));
}

#[test]
fn a_subscription_hands_out_its_own_notifications() {
    let (mut pending, action) =
        PendingSubscribe::with_request_id(ActionPath::from("a"), None, OWN);
    assert_eq!(
        action,
        Action::Subscribe { path: ActionPath::from("a"), filters: None, request_id: OWN }
    );
    let note = |bits: u128, value: u8| {
        success(ActionSuccessResponse::Subscription {
            subscription_id: sub(bits),
            value: Value::from(value),
            timestamp: 0,
        })
    };
    let named = |request_id: ReqID, bits: u128| {
        success(ActionSuccessResponse::Subscribe {
            request_id,
            subscription_id: sub(bits),
            timestamp: 0,
        })
    };
    assert!(matches!(pending.step(note(7, 1)), SubscribeStep::Wait));
    assert!(matches!(pending.step(named(OTHER, 7)), SubscribeStep::Wait));
    assert!(matches!(pending.step(note(7, 1)), SubscribeStep::Wait));
    assert!(matches!(pending.step(named(OWN, 8)), SubscribeStep::Wait));
    assert!(matches!(pending.step(note(7, 1)), SubscribeStep::Wait));
    match pending.step(note(8, 2)) {
        SubscribeStep::Yield(id, value) => assert_eq!((id, value), (sub(8), Value::from(2))),
        other => panic!("Unexpected step: {:#?}", other),
    }
    assert!(matches!(pending.step(ServerFrame::Other), SubscribeStep::Wait));
    assert!(matches!(
        pending.step(other_text("{}")),
        SubscribeStep::Fail(VISClientError::SerdeError(_))
    ));
    assert!(matches!(
        pending.step(failed()),
        SubscribeStep::Fail(VISClientError::WebSocketError(_))
    ));
}

#[test]
fn a_raw_subscription_hands_out_every_response() {
    match PendingSubscribe::raw_step(success(value_response(OTHER))) {
        RawStep::Yield(response) => assert_eq!(response, value_response(OTHER)),
        other => panic!("Unexpected step: {:#?}", other),
    }
    assert!(matches!(PendingSubscribe::raw_step(ServerFrame::Other), RawStep::Wait));
    assert!(matches!(
        PendingSubscribe::raw_step(other_text("{}")),
        RawStep::Fail(VISClientError::SerdeError(_))
    ));
    assert!(matches!(
        PendingSubscribe::raw_step(failed()),
        RawStep::Fail(VISClientError::WebSocketError(_))
    ));
}

#[test]
fn ending_all_waits_for_the_confirmation() {
    let (pending, action) = PendingUnsubscribeAll::with_request_id(OWN);
    assert_eq!(action, Action::UnsubscribeAll { request_id: OWN });
    let confirmed = |request_id: ReqID| {
        Some(success(ActionSuccessResponse::UnsubscribeAll { request_id, timestamp: 0 }))
    };
    assert!(matches!(pending.step(confirmed(OTHER)), UnsubscribeAllStep::Wait));
    assert!(matches!(
        pending.step(Some(success(value_response(OWN)))),
        UnsubscribeAllStep::Wait
    ));
    assert!(matches!(pending.step(Some(ServerFrame::Other)), UnsubscribeAllStep::Wait));
    assert!(matches!(pending.step(confirmed(OWN)), UnsubscribeAllStep::Done));
    assert!(matches!(
        pending.step(Some(other_text("{}"))),
        UnsubscribeAllStep::Fail(VISClientError::SerdeError(_))
    ));
    assert!(matches!(
        pending.step(Some(failed())),
        UnsubscribeAllStep::Fail(VISClientError::LostConnectionWithoutResponse)
    ));
    assert!(matches!(
        pending.step(None),
        UnsubscribeAllStep::Fail(VISClientError::LostConnectionWithoutResponse)
    ));
}

#[test]
fn requests_are_started_under_drawn_identifiers() {
    let (first, _) = PendingUnsubscribeAll::start();
    let (second, _) = PendingSubscribe::start(ActionPath::from("a"), None);
    let (third, action) = PendingGet::start(ActionPath::from("a"));
    assert_ne!(first.request_id, second.request_id);
    assert_ne!(second.request_id, third.request_id);
    assert_eq!(
        action,
        Action::Get { path: ActionPath::from("a"), request_id: third.request_id }
    );
}

#[test]
fn a_subscription_and_the_service_fit_together() {
    let mut server = Client::new();
    let (mut pending, action) = PendingSubscribe::start(ActionPath::from("a"), None);
    let answer = server.dispatch_message(action);
    assert!(matches!(
        pending.step(success(answer.response.unwrap())),
        SubscribeStep::Wait
    ));
    let queue = server.handle_signal(ActionPath::from("a"), Value::from(6));
    assert_eq!(queue.len(), 1);
    let notice = server.notify_subscriber(queue[0].0, &queue[0].1, Ok(true)).unwrap();
    match pending.step(success(notice.unwrap())) {
        SubscribeStep::Yield(id, value) => {
            assert_eq!(Some(id), pending.subscription_id);
            assert_eq!(value, Value::from(6));
        }
        other => panic!("Unexpected step: {:#?}", other),
    }
    let (pending, action) = PendingUnsubscribeAll::start();
    let answer = server.dispatch_message(action);
    assert!(matches!(
        pending.step(Some(success(answer.response.unwrap()))),
        UnsubscribeAllStep::Done
    ));
}

#[test]
fn errors_have_their_sentences() {
    let cases = vec![
        (VISClientError::from(tungstenite::Error::ConnectionClosed), "WebsocketError"),
        (VISClientError::from(json_error()), "SerdeError"),
        (
            VISClientError::from(std::io::Error::from(std::io::ErrorKind::NotFound)),
            "IoError",
        ),
        (VISClientError::from(url::ParseError::EmptyHost), "Url parsing error"),
        (
            VISClientError::from(ActionErrorResponse::Get {
                request_id: OWN,
                error: ActionError::from_status(500),
                timestamp: 0,
            }),
            "VIS error",
        ),
        (
            VISClientError::LostConnectionWithoutResponse,
            "Websocket connection lost while waiting for result",
        ),
    ];
    for (error, text) in cases {
        assert_eq!(error.to_text(), text);
    }
}
