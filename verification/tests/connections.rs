use serde_json::Value;
use vehicle_information_service::api_error::{ActionError, ActionErrorResponse};
use vehicle_information_service::api_type::{Action, ActionPath, ActionSuccessResponse};
use vehicle_information_service::client::Client;
use vehicle_information_service::identifier::{ReqID, SubscriptionID, Uuid};
use vehicle_information_service::router::{
    signal_updates, source_update, unserializable_response, ActionSourceable, ClientMessage, ClientSession,
    SessionEvent, SessionStep, SignalRequest, UpdateSignal,
};
use vehicle_information_service::signal_server::{
    ClientAction, Delivery, ServerEvent, ServerStep, SignalServer, SocketAddr,
};
use vehicle_information_service::websocket_server::{
    Connection, ConnectionEvent, Incoming, IncomingStep, WebsocketServer,
};

const REQ: ReqID = ReqID::ReqIDInt(1);
const HERE: SocketAddr = SocketAddr::V4 { ipv4: 0x7f00_0001, port: 14430 };
const THERE: SocketAddr = SocketAddr::V6 { ipv6: 1, port: 14430, flowinfo: 0, scope_id: 0 };

fn get(path: &str) -> Action {
    Action::Get { path: ActionPath::from(path), request_id: REQ }
}

fn json_error() -> serde_json::Error {
    serde_json::from_str::<u8>("no number").unwrap_err()
}

fn connect(server: &mut SignalServer<u8>, socket_addr: SocketAddr, client: u8) {
    let action = WebsocketServer::connection_opened(socket_addr, client);
    assert_eq!(server.process_client_requests(action), None);
}

#[test]
fn requests_reach_connected_clients_only() {
    let mut server = SignalServer::new();
    let message = ClientAction::Message { socket_addr: HERE, action: get("a") };
    assert_eq!(server.process_client_requests(message), None);
    connect(&mut server, HERE, 1);
    let message = ClientAction::Message { socket_addr: HERE, action: get("a") };
    assert_eq!(server.process_client_requests(message), Some((HERE, get("a"))));
    let message = ClientAction::Message { socket_addr: THERE, action: get("a") };
    assert_eq!(server.process_client_requests(message), None);
    let closed = WebsocketServer::connection_closed(HERE);
    assert_eq!(server.process_client_requests(closed), None);
    let message = ClientAction::Message { socket_addr: HERE, action: get("a") };
    assert_eq!(server.process_client_requests(message), None);
}

#[test]
fn signals_reach_every_connected_client_once() {
    let mut server = SignalServer::new();
    let speed = ActionPath::from("Vehicle.Speed");
    assert!(server.distribute(&speed, &Value::from(1)).is_empty());
    connect(&mut server, HERE, 1);
    connect(&mut server, THERE, 2);
    connect(&mut server, HERE, 3);
    let deliveries = server.distribute(&speed, &Value::from(1));
    assert_eq!(deliveries.len(), 2);
    assert!(deliveries.iter().any(|d| d.socket_addr == HERE));
    assert!(deliveries.iter().any(|d| d.socket_addr == THERE));
    assert!(deliveries.iter().all(|d| d.path == speed && d.value == Value::from(1)));
}

#[test]
fn a_new_connection_takes_the_place_of_the_old_one() {
    let mut server = SignalServer::new();
    connect(&mut server, HERE, 1);
    connect(&mut server, HERE, 2);
    assert_eq!(server.len(), 1);
    assert_eq!(server.client_mut(HERE), Some(&mut 2));
    *server.client_mut(HERE).unwrap() = 9;
    assert_eq!(server.client_mut(HERE), Some(&mut 9));
    assert_eq!(server.client_mut(THERE), None);
}

#[test]
fn disconnecting_leaves_the_others() {
    let mut server = SignalServer::new();
    connect(&mut server, HERE, 1);
    connect(&mut server, THERE, 2);
    server.process_client_requests(ClientAction::Disconnected { socket_addr: HERE });
    server.process_client_requests(ClientAction::Disconnected { socket_addr: HERE });
    assert_eq!(server.len(), 1);
    assert_eq!(server.client_mut(HERE), None);
    assert_eq!(server.client_mut(THERE), Some(&mut 2));
}

#[test]
fn each_server_event_gets_its_step() {
    let mut server = SignalServer::new();
    let speed = ActionPath::from("Vehicle.Speed");
    let signal = ServerEvent::Signal(speed.clone(), Value::from(7));
    assert_eq!(server.step(signal), ServerStep::Distribute(vec![]));
    let opened = WebsocketServer::connection_opened(HERE, 1u8);
    assert_eq!(server.step(ServerEvent::Client(opened)), ServerStep::Idle);
    let signal = ServerEvent::Signal(speed.clone(), Value::from(8));
    assert_eq!(
        server.step(signal),
        ServerStep::Distribute(vec![Delivery {
            socket_addr: HERE,
            path: speed.clone(),
            value: Value::from(8),
        }])
    );
    let message = ClientAction::Message { socket_addr: HERE, action: get("a") };
    assert_eq!(
        server.step(ServerEvent::Client(message)),
        ServerStep::Forward(HERE, get("a"))
    );
    let message = ClientAction::Message { socket_addr: THERE, action: get("a") };
    assert_eq!(server.step(ServerEvent::Client(message)), ServerStep::Idle);
    let closed = WebsocketServer::connection_closed(HERE);
    assert_eq!(server.step(ServerEvent::Client(closed)), ServerStep::Idle);
    let signal = ServerEvent::Signal(speed, Value::from(9));
    assert_eq!(server.step(signal), ServerStep::Distribute(vec![]));
}

#[test]
fn the_first_argument_is_the_address() {
    assert_eq!(WebsocketServer::listen_address(None), "127.0.0.1:8080");
    assert_eq!(
        WebsocketServer::listen_address(Some("0.0.0.0:14430".to_string())),
        "0.0.0.0:14430"
    );
}

#[test]
fn connections_report_requests_and_stop_at_the_end() {
    let step: IncomingStep<u8> =
        WebsocketServer::handle_incoming_client_message(HERE, Incoming::Text(Ok(get("a"))));
    match step {
        IncomingStep::Report(ClientAction::Message { socket_addr, action }) => {
            assert_eq!((socket_addr, action), (HERE, get("a")));
        }
        other => panic!("Unexpected step: {:#?}", other),
    }
    for ignored in vec![
        Incoming::Ping,
        Incoming::Pong,
        Incoming::Binary,
        Incoming::Close,
        Incoming::Text(Err(json_error())),
    ] {
        let step: IncomingStep<u8> =
            WebsocketServer::handle_incoming_client_message(HERE, ignored);
        assert!(matches!(step, IncomingStep::Ignore));
    }
    for last in vec![Incoming::Ended, Incoming::Failed(tungstenite::Error::ConnectionClosed)] {
        let step: IncomingStep<u8> = WebsocketServer::handle_incoming_client_message(HERE, last);
        assert!(matches!(step, IncomingStep::Stop));
    }
}

/// The reports of a connection, as a letter each.
fn letters(events: Vec<ConnectionEvent<u8>>) -> String {
    let mut connection = Connection::new(HERE);
    let mut letters = String::new();
    for event in events {
        match connection.step(event) {
            Some(ClientAction::Connected { socket_addr, client }) => {
                assert_eq!((socket_addr, client), (HERE, 7));
                letters.push('c');
            }
            Some(ClientAction::Message { socket_addr, action }) => {
                assert_eq!((socket_addr, action), (HERE, get("a")));
                letters.push('m');
            }
            Some(ClientAction::Disconnected { socket_addr }) => {
                assert_eq!(socket_addr, HERE);
                assert!(connection.is_closed());
                letters.push('d');
            }
            None => {}
        }
    }
    letters
}

fn request() -> ConnectionEvent<u8> {
    ConnectionEvent::Brought(Incoming::Text(Ok(get("a"))))
}

#[test]
fn connections_report_their_whole_life() {
    let events = vec![
        ConnectionEvent::Opened(7),
        request(),
        ConnectionEvent::Brought(Incoming::Ping),
        request(),
        ConnectionEvent::Brought(Incoming::Ended),
        ConnectionEvent::OutgoingEnded,
    ];
    assert_eq!(letters(events), "cmmd");
    let events = vec![ConnectionEvent::Opened(7), request(), ConnectionEvent::OutgoingEnded];
    assert_eq!(letters(events), "cmd");
}

#[test]
fn connections_report_in_order_whatever_happens() {
    let events = vec![
        request(),
        ConnectionEvent::OutgoingEnded,
        ConnectionEvent::Opened(7),
        ConnectionEvent::Opened(8),
        ConnectionEvent::OutgoingEnded,
        request(),
        ConnectionEvent::Opened(9),
        ConnectionEvent::OutgoingEnded,
    ];
    assert_eq!(letters(events), "cd");
}

#[test]
fn failed_items_of_a_signal_source_are_dropped() {
    let path = ActionPath::from("a");
    assert_eq!(source_update(&path, None), None);
    assert_eq!(
        source_update(&path, Some(Value::from(3))),
        Some(UpdateSignal { path: ActionPath::from("a"), value: Value::from(3) })
    );
}

#[test]
fn a_phrase_is_both_reason_and_message() {
    assert_eq!(
        ActionError::from_phrase(418, Some("I'm a teapot".to_string())),
        ActionError {
            number: 418,
            reason: "I'm a teapot".to_string(),
            message: "I'm a teapot".to_string(),
        }
    );
    assert_eq!(
        ActionError::from_phrase(599, None),
        ActionError { number: 599, reason: String::new(), message: String::new() }
    );
}

#[test]
fn connected_clients_read_the_last_signal() {
    let mut server: SignalServer<Client> = SignalServer::new();
    for addr in vec![HERE, THERE] {
        let opened = WebsocketServer::connection_opened(addr, Client::new());
        server.step(ServerEvent::Client(opened));
    }
    let signals = vec![("a", 1), ("b", 2), ("a", 3)];
    let mut received = vec![];
    for (path, value) in signals {
        let event = ServerEvent::Signal(ActionPath::from(path), Value::from(value));
        match server.step(event) {
            ServerStep::Distribute(deliveries) => {
                for delivery in deliveries {
                    if delivery.socket_addr == HERE {
                        received.push((delivery.path.0.clone(), delivery.value.clone()));
                    }
                    let client = server.client_mut(delivery.socket_addr).unwrap();
                    client.handle_signal(delivery.path, delivery.value);
                }
            }
            other => panic!("Unexpected step: {:#?}", other),
        }
    }
    assert_eq!(
        received,
        vec![
            ("a".to_string(), Value::from(1)),
            ("b".to_string(), Value::from(2)),
            ("a".to_string(), Value::from(3)),
        ]
    );
    for addr in vec![HERE, THERE] {
        let client = server.client_mut(addr).unwrap();
        for (path, last) in vec![("a", 3), ("b", 2)] {
            assert_eq!(
                client.handle_get(ActionPath::from(path), REQ, 5),
                Ok(ActionSuccessResponse::Get {
                    request_id: REQ,
                    value: Value::from(last),
                    timestamp: 5,
                })
            );
        }
        assert!(client.handle_get(ActionPath::from("c"), REQ, 5).is_err());
    }
}

#[test]
fn sessions_pass_requests_on() {
    let session = ClientSession::new("keeper");
    let id = session.client_connection_id();
    assert!(!id.is_nil());
    assert_eq!(*session.signal_manager_addr(), "keeper");
    let sub = SubscriptionID::SubscriptionIDUUID(Uuid { bits: 3 });
    let path = ActionPath::from("a");
    let cases = vec![
        (get("a"), SignalRequest::Get { request_id: REQ, path: path.clone() }),
        (
            Action::Subscribe { path: path.clone(), filters: None, request_id: REQ },
            SignalRequest::Subscribe { path: path.clone(), request_id: REQ, filters: None },
        ),
        (
            Action::Unsubscribe { subscription_id: sub, request_id: REQ },
            SignalRequest::Unsubscribe { request_id: REQ, subscription_id: sub },
        ),
        (
            Action::UnsubscribeAll { request_id: REQ },
            SignalRequest::UnsubscribeAll { request_id: Some(REQ) },
        ),
        (
            Action::SetSignal { path: path.clone(), value: Value::from(1), request_id: REQ },
            SignalRequest::SetSignal { request_id: REQ, path: path.clone(), value: Value::from(1) },
        ),
    ];
    for (action, message) in cases {
        assert_eq!(
            session.handle(SessionEvent::Text(Ok(action))),
            SessionStep::Forward(ClientMessage { client_connection_id: id, message })
        );
    }
}

#[test]
fn requests_passed_on_are_whole() {
    let set = SignalRequest::SetSignal {
        request_id: REQ,
        path: ActionPath::from("a"),
        value: Value::from(1),
    };
    assert_eq!(
        set.into_action(),
        Some(Action::SetSignal {
            path: ActionPath::from("a"),
            value: Value::from(1),
            request_id: REQ,
        })
    );
    let all = SignalRequest::UnsubscribeAll { request_id: Some(REQ) };
    assert_eq!(all.into_action(), Some(Action::UnsubscribeAll { request_id: REQ }));
    let over = SignalRequest::UnsubscribeAll { request_id: None };
    assert_eq!(over.into_action(), None);
}

#[test]
fn sessions_refuse_what_is_not_implemented() {
    let session = ClientSession::new(());
    let error = ActionError {
        number: 501,
        reason: "Not Implemented".to_string(),
        message: "Not Implemented".to_string(),
    };
    let authorize = Action::Authorize { tokens: Value::Null, request_id: REQ };
    assert_eq!(
        session.handle_at(SessionEvent::Text(Ok(authorize)), 4),
        SessionStep::ReplyError(ActionErrorResponse::Authorize {
            request_id: REQ,
            error,
            timestamp: 4
        })
    );
    let metadata = Action::GetMetadata { path: ActionPath::from("a"), request_id: REQ };
    match session.handle_at(SessionEvent::Text(Ok(metadata)), 4) {
        SessionStep::ReplyError(ActionErrorResponse::GetMetadata { request_id, error, timestamp }) => {
            assert_eq!((request_id, error.number, timestamp), (REQ, 501, 4));
        }
        other => panic!("Unexpected step: {:#?}", other),
    }
}

#[test]
fn sessions_answer_malformed_texts() {
    let session = ClientSession::new(());
    match session.handle(SessionEvent::Text(Err(json_error()))) {
        SessionStep::ReplyMalformed(error) => {
            assert_eq!((error.number, error.reason.as_str()), (400, "bad_request"));
        }
        other => panic!("Unexpected step: {:#?}", other),
    }
}

#[test]
fn sessions_answer_pings_and_stop_on_close() {
    let session = ClientSession::new(());
    assert_eq!(
        session.handle(SessionEvent::Ping(vec![1, 2, 3])),
        SessionStep::Pong(vec![1, 2, 3])
    );
    assert_eq!(session.handle(SessionEvent::Pong), SessionStep::Ignore);
    assert_eq!(session.handle(SessionEvent::Binary), SessionStep::Ignore);
    assert_eq!(session.handle(SessionEvent::Close), SessionStep::Stop);
    assert_eq!(session.handle(SessionEvent::Nop), SessionStep::Stop);
    assert_eq!(session.handle(SessionEvent::Continuation), SessionStep::Stop);
    assert_eq!(session.handle(SessionEvent::ProtocolError), SessionStep::Stop);
}

#[test]
fn a_stopped_session_ends_its_subscriptions() {
    let session = ClientSession::new(());
    assert_eq!(
        session.stopped(),
        ClientMessage {
            client_connection_id: session.client_connection_id(),
            message: SignalRequest::UnsubscribeAll { request_id: None },
        }
    );
}

#[test]
fn a_response_without_text_is_replaced() {
    match unserializable_response(12) {
        ActionErrorResponse::Subscribe { request_id, error, timestamp } => {
            assert_eq!((request_id, error.number, timestamp), (ReqID::ReqIDInt(0), 500, 12));
        }
        other => panic!("Unexpected response: {:#?}", other),
    }
}

#[test]
fn unknown_status_codes_have_no_phrase() {
    assert_eq!(
        ActionError::from_status(404),
        ActionError {
            number: 404,
            reason: "Not Found".to_string(),
            message: "Not Found".to_string()
        }
    );
    assert_eq!(
        ActionError::from_status(999),
        ActionError { number: 999, reason: String::new(), message: String::new() }
    );
    assert_eq!(ActionError::from_status(7).reason, "");
}

#[test]
fn signal_sources_keep_their_order() {
    let one = (ActionPath::from("a"), Value::from(1));
    assert_eq!(one.source(), vec![(ActionPath::from("a"), Value::from(1))]);
    let many = vec![
        (ActionPath::from("a"), Value::from(1)),
        (ActionPath::from("b"), Value::from(2)),
    ];
    assert_eq!(
        signal_updates(many.source()),
        vec![
            UpdateSignal { path: ActionPath::from("a"), value: Value::from(1) },
            UpdateSignal { path: ActionPath::from("b"), value: Value::from(2) },
        ]
    );
}
