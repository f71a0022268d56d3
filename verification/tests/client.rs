use roslibrust_rosbridge::{
    connection_label, interpret_reply, service_response, ClientHandle, ClientHandleOptions,
    ClientIds, Dispatch, Duration, Error, HeartbeatStep, Incoming, Instant, Message, Read,
    Served, SpinAction, SpinEvent, Waited, PING_INTERVAL, PONG_TIMEOUT, SPIN_DURATION,
};

const START: Instant = Instant { nanos: 1_000_000_000_000 };

fn at(nanos: u128) -> Instant {
    Instant { nanos: START.nanos + nanos }
}

// A handle whose connection has just been established.
fn test_connection(client_timeout: Option<Duration>) -> ClientHandle {
    let mut opts = ClientHandleOptions::new("ws://127.0.0.1:9090");
    if let Some(client_timeout) = client_timeout {
        opts = opts.timeout(client_timeout);
    }
    ClientHandle::new_with_options(opts, 0, Waited::Done(START)).unwrap()
}

fn json(text: &str) -> serde_json::Value {
    serde_json::from_str(text).unwrap()
}

#[test]
fn disconnect_wakes_unbounded_service_call() {
    let mut client = test_connection(None);
    let call = client.call_service("/test", json(r#"{"data":true}"#), 7).unwrap();
    let request = json(&call.frame.encode());
    assert_eq!(request["op"], "call_service");
    // No timeout is configured: only disconnect detection can resolve the service call.
    let deadline = client.call_sent(&call.id, Waited::Done(Ok(()))).unwrap();
    assert_eq!(deadline, None);

    let spun = client
        .inner
        .spin_once(Read::Message(Message::Close("None".to_string())), at(1))
        .map(|_| ());
    let action = client.stubborn_spin(SpinEvent::Spun(Waited::Done(spun)));
    let SpinAction::Reconnect { woken } = action else {
        panic!("expected a reconnect, got {action:?}");
    };
    assert_eq!(woken, vec![7]);
    assert!(!client.is_connected());

    let result = client.call_replied(&call.id, Waited::Done(None));
    assert!(matches!(result, Err(Error::Unexpected(_))));

    // Completing the reconnect makes the client usable again.
    client.inner.abandon_calls();
    let (woken, frames) = client.inner.reconnect(at(2));
    assert!(woken.is_empty() && frames.is_empty());
    assert!(matches!(client.stubborn_spin(SpinEvent::Reconnected(Ok(()))), SpinAction::Spin));
    assert!(client.is_connected());
}

#[test]
fn connection_label_distinguishes_sockets_to_the_same_url() {
    let mut ids = ClientIds::new();
    let url = "ws://localhost:9090";
    let named = connection_label(&ClientHandleOptions::new(url).name("services"), ids.next_id());
    let unnamed = connection_label(&ClientHandleOptions::new(url), ids.next_id());

    assert!(named.starts_with("services "), "{named}");
    assert!(named.contains(url), "{named}");
    assert!(unnamed.starts_with(url), "{unnamed}");
    // Two clients pointed at one url must never share a label
    assert_ne!(unnamed, connection_label(&ClientHandleOptions::new(url), ids.next_id()));
}

#[test]
fn is_connected_reports_the_connection_state() {
    let mut client = test_connection(None);
    assert!(client.is_connected());

    // Pins the polarity in both directions, the accessor inverts the stored flag
    client.is_disconnected = true;
    assert!(!client.is_connected());
}

#[test]
fn socket_that_stops_answering_pings_is_rebuilt() {
    let mut client = test_connection(None);

    // Reads stay pending and writes succeed, but no pong ever comes. Nothing but the pong
    // timeout can detect it.
    let mut pings = 0;
    let mut elapsed = 0;
    let rebuilt = loop {
        if elapsed > PONG_TIMEOUT * 2 {
            break None;
        }
        let action = client.stubborn_spin(SpinEvent::Spun(Waited::Elapsed));
        assert!(matches!(action, SpinAction::CheckHeartbeat));
        let checked = client.inner.check_heartbeat(at(elapsed), true);
        if let Ok(HeartbeatStep::Ping) = checked {
            pings += 1;
        }
        let event = SpinEvent::HeartbeatChecked(checked.map(|_| ()));
        if let SpinAction::Reconnect { .. } = client.stubborn_spin(event) {
            break Some(elapsed);
        }
        elapsed += SPIN_DURATION;
    };
    let rebuilt = rebuilt.expect("client did not rebuild the socket after its pings went unanswered");
    assert_eq!(rebuilt, PONG_TIMEOUT + SPIN_DURATION);
    assert_eq!(pings, 5);
    assert!(!client.is_connected());
}

#[test]
fn socket_answering_pings_is_left_alone() {
    let mut client = test_connection(None);

    let mut pings = 0;
    let mut elapsed = 0;
    while elapsed <= PONG_TIMEOUT * 2 {
        let step = client
            .inner
            .check_heartbeat(at(elapsed), true)
            .expect("client rebuilt a connection that was answering its pings");
        if step == HeartbeatStep::Ping {
            pings += 1;
            let pong = Message::Pong(vec![]);
            assert!(client.inner.handle_message(pong, at(elapsed + 1_000_000)).is_ok());
        }
        let action = client.stubborn_spin(SpinEvent::HeartbeatChecked(Ok(())));
        assert!(matches!(action, SpinAction::Spin));
        elapsed += SPIN_DURATION;
    }
    assert_eq!(pings, PONG_TIMEOUT * 2 / PING_INTERVAL);
    assert!(client.is_connected());
}

#[test]
fn malformed_and_unsupported_messages_are_ignored() {
    let mut client = test_connection(None);
    let messages = [
        Message::Text("not json".to_string()),
        Message::Text("null".to_string()),
        Message::Text(r#"{"op":42}"#.to_string()),
        Message::Text(r#"{"op":"unknown"}"#.to_string()),
        Message::Text(r#"{"op":"publish","msg":{}}"#.to_string()),
        Message::Text(r#"{"op":"publish","topic":"/test"}"#.to_string()),
        Message::Text(r#"{"op":"service_response"}"#.to_string()),
        Message::Text(r#"{"op":"call_service"}"#.to_string()),
        Message::Binary(vec![1, 2, 3]),
    ];

    for message in messages {
        assert!(client.inner.handle_message(message, at(1)).is_ok());
    }
    assert!(client.inner.handle_message(Message::Close("None".to_string()), at(1)).is_err());
}

#[test]
fn service_call_timeout_removes_tracking_and_late_response_is_ignored() {
    let mut client = test_connection(Some(Duration::from_millis(100)));
    let call = client.call_service("/test", json(r#"{"data":true}"#), 0).unwrap();
    assert!(client.inner.has_calls());
    let deadline = client.call_sent(&call.id, Waited::Done(Ok(()))).unwrap();
    assert_eq!(deadline, Some(Duration::from_millis(100)));

    let request = json(&call.frame.encode());
    let id = request["id"].as_str().unwrap().to_string();
    let result = client.call_replied(&id, Waited::Elapsed);

    assert!(matches!(result, Err(Error::Timeout(_))));
    assert!(!client.inner.has_calls());

    let late = format!(
        r#"{{"op":"service_response","id":"{id}","values":{{"success":true,"message":"too late"}}}}"#
    );
    client.inner.handle_response(Incoming::decode(&late).unwrap());
    assert!(!client.inner.has_calls());
}

#[test]
fn panicking_service_callback_sends_failed_response() {
    let mut client = test_connection(None);
    client.advertise_service("/test", "std_srvs/SetBool", 3).unwrap();

    let request =
        r#"{"op":"call_service","service":"/test","id":"request-id","args":{"data":true}}"#;
    let dispatch = client.inner.handle_service(Incoming::decode(request).unwrap());
    let Dispatch::Serve { callback, service, id, request } = dispatch else {
        panic!("expected the service to be run, got {dispatch:?}");
    };
    assert_eq!(callback, 3);
    assert_eq!(request, r#"{"data":true}"#);

    let response = service_response(service, id, Served::Panicked("test callback panic".to_string()));
    let response = json(&response.encode());
    assert_eq!(response["op"], "service_response");
    assert_eq!(response["service"], "/test");
    assert_eq!(response["id"], "request-id");
    assert_eq!(response["result"], false);
    assert!(response["values"].as_str().unwrap().contains("Service callback panicked"));
    assert_eq!(response["values"], "Service callback panicked: test callback panic");
}

#[test]
fn response_is_read_as_its_type_before_it_is_taken_for_a_server_error() {
    let typed: Result<bool, String> = Ok(true);
    assert!(matches!(interpret_reply(&json("\"text\""), typed), Ok(true)));

    let unreadable: Result<bool, String> = Err("expected a boolean".to_string());
    let result = interpret_reply(&json("\"no such service\""), unreadable.clone());
    let Err(Error::ServerError(text)) = result else {
        panic!("expected a server error, got {result:?}");
    };
    assert_eq!(text, "no such service");

    let result = interpret_reply(&json("{}"), unreadable);
    let Err(Error::SerializationError(text)) = result else {
        panic!("expected a serialization error, got {result:?}");
    };
    assert_eq!(text, "expected a boolean");
}
