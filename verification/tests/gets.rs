use serde_json::Value;
use vehicle_information_service::api_error::{ActionError, ActionErrorResponse};
use vehicle_information_service::api_type::{Action, ActionPath, ActionSuccessResponse};
use vehicle_information_service::client::Client;
use vehicle_information_service::identifier::ReqID;
use vehicle_information_service::subscription::Response;
use vehicle_information_service::unix_timestamp_ms;
use vehicle_information_service::vis_client::{
    GetStep, PendingGet, ServerFrame, VISClientError,
};

/// Sends a request for `path` to `server` and gives back what the client makes of the
/// response.
fn get(server: &mut Client, path: &str) -> Result<Value, VISClientError> {
    let (pending, action) = PendingGet::start(ActionPath::from(path));
    let response: Response = server.dispatch_message(action).response;
    match response {
        Ok(success) => {
            let frame = ServerFrame::Text { text: String::new(), parsed: Ok(success) };
            match pending.step(frame) {
                GetStep::Done(value) => Ok(value),
                other => panic!("Unexpected step: {:#?}", other),
            }
        }
        Err(error) => Err(PendingGet::error_response(Ok(error))),
    }
}

#[test]
fn receive_get_async() {
    let mut server = Client::new();
    let now = (unix_timestamp_ms() / 1000) as u64;
    server.handle_signal(ActionPath::from("Private.Example.Timestamp"), Value::from(now));

    let value = get(&mut server, "Private.Example.Timestamp").unwrap();
    let interval: u32 = serde_json::from_value(value).unwrap();
    assert!(interval > 0);
}

#[test]
fn get_invalid_path_should_return_invalid_path() {
    let mut server = Client::new();
    let response = get(&mut server, "Invalid.Path");

    if let Err(VISClientError::VisError(ActionErrorResponse::Get {
        request_id,
        error,
        timestamp: _,
    })) = response
    {
        if let ReqID::ReqIDUUID(req_uuid) = request_id {
            assert!(!req_uuid.is_nil());
        } else {
            panic!("Unexpected request id type");
        }
        assert_eq!(404, error.number);
        assert_eq!("invalid_path".to_string(), error.reason);
        assert_eq!(
            "The specified data path does not exist.".to_string(),
            error.message
        );
    } else {
        panic!("Unexpected success for invalid path: {:#?}", response);
    }
}

#[test]
fn get_gives_back_the_last_value_of_each_path() {
    let mut server = Client::new();
    server.handle_signal(ActionPath::from("Vehicle.Speed"), Value::from(10));
    server.handle_signal(ActionPath::from("Vehicle.Rpm"), Value::from(900));
    server.handle_signal(ActionPath::from("Vehicle.Speed"), Value::from(20));
    let id = ReqID::ReqIDInt(7);
    assert_eq!(
        server.handle_get(ActionPath::from("Vehicle.Speed"), id, 5),
        Ok(ActionSuccessResponse::Get { request_id: id, value: Value::from(20), timestamp: 5 })
    );
    assert_eq!(
        server.handle_get(ActionPath::from("Vehicle.Rpm"), id, 6),
        Ok(ActionSuccessResponse::Get { request_id: id, value: Value::from(900), timestamp: 6 })
    );
    assert_eq!(
        server.handle_get(ActionPath::from("Vehicle.Gear"), id, 7),
        Err(ActionErrorResponse::Get {
            request_id: id,
            error: ActionError {
                number: 404,
                reason: "invalid_path".to_string(),
                message: "The specified data path does not exist.".to_string(),
            },
            timestamp: 7,
        })
    );
}

#[test]
fn responses_are_stamped_with_the_current_time() {
    let mut server = Client::new();
    let before = unix_timestamp_ms();
    let action = Action::UnsubscribeAll { request_id: ReqID::ReqIDInt(1) };
    let answer = server.dispatch_message(action);
    let after = unix_timestamp_ms();
    match answer.response {
        Ok(ActionSuccessResponse::UnsubscribeAll { request_id, timestamp }) => {
            assert_eq!(request_id, ReqID::ReqIDInt(1));
            assert!(before <= timestamp && timestamp <= after);
        }
        other => panic!("Unexpected response: {:#?}", other),
    }
}
