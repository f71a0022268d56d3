use roslibrust_rosbridge::{
    connect, connection_label, ping_outcome, reply_outcome, service_response, stubborn_connect,
    timeout, ClientHandle, ClientHandleOptions, ClientIds, ConnectStep, Dispatch, Duration, Error,
    Frame, HeartbeatStep, Ignored, Incoming, Instant, Message, MessageQueue, Ops, Read, Received,
    Removal, Served, SpinAction, SpinEvent, Waited, PING_INTERVAL, PONG_TIMEOUT,
};

const START: Instant = Instant { nanos: 5_000_000_000_000 };

fn at(nanos: u128) -> Instant {
    Instant { nanos: START.nanos + nanos }
}

fn connected() -> ClientHandle {
    ClientHandle::new("ws://localhost:9090", 4, START).unwrap()
}

fn json(text: &str) -> serde_json::Value {
    serde_json::from_str(text).unwrap()
}

fn receive(client: &mut ClientHandle, text: &str) -> Dispatch {
    client.inner.handle_message(Message::Text(text.to_string()), at(1)).unwrap()
}

fn ignored(client: &mut ClientHandle, text: &str) -> Ignored {
    match receive(client, text) {
        Dispatch::Ignored(reason) => reason,
        other => panic!("expected {text} to be ignored, got {other:?}"),
    }
}

fn listen(client: &mut ClientHandle, topic: &str, topic_type: &str, id: u128) {
    client.subscribe(topic, topic_type).unwrap();
    client.subscribed(topic, topic_type, id, Waited::Done(Ok(()))).unwrap();
}

#[test]
fn labels_are_exact() {
    let opts = ClientHandleOptions::new("ws://localhost:9090");
    assert_eq!(connection_label(&opts, 0), "ws://localhost:9090 #0");
    assert_eq!(connection_label(&opts.name("services"), 1207), "services ws://localhost:9090 #1207");
    let opts = ClientHandleOptions::new("");
    assert_eq!(connection_label(&opts, usize::MAX), format!(" #{}", usize::MAX));
    assert_eq!(connected().inner.label(), "ws://localhost:9090 #4");
}

#[test]
fn labels_with_different_numbers_differ() {
    // A url that itself ends like a label does not make two connections look alike
    let plain = ClientHandleOptions::new("ws://host");
    let tricky = ClientHandleOptions::new("ws://host #1");
    assert_ne!(connection_label(&plain, 11), connection_label(&tricky, 1));
    assert_ne!(connection_label(&plain, 1), connection_label(&tricky, 11));
}

#[test]
fn client_ids_count_up() {
    let mut ids = ClientIds::new();
    assert_eq!(ids.next_id(), 0);
    assert_eq!(ids.next_id(), 1);
    assert_eq!(ids.next_id(), 2);
}

#[test]
fn drawn_ids_tell_connections_apart() {
    let mut ids = ClientIds::new();
    let opts = ClientHandleOptions::new("ws://host").name("services");
    let mut labels = vec![];
    for _ in 0..1_000 {
        let label = connection_label(&opts, ids.next_id());
        assert!(!labels.contains(&label));
        labels.push(label);
    }
}

#[test]
fn deadline_is_the_configured_timeout() {
    let opts = ClientHandleOptions::new("ws://host");
    assert_eq!(opts.deadline(), None);
    let opts = opts.timeout(Duration::from_secs(2));
    assert_eq!(opts.deadline(), Some(Duration { nanos: 2_000_000_000 }));
    assert_eq!(opts.url(), "ws://host");
    // A timeout of zero is no deadline
    assert_eq!(opts.timeout(Duration::from_millis(0)).deadline(), None);
}

#[test]
fn connection_that_is_not_established_in_time_is_a_timeout() {
    let opts = ClientHandleOptions::new("ws://host").timeout(Duration::from_millis(1));
    match ClientHandle::new_with_options(opts, 0, Waited::Elapsed) {
        Err(Error::Timeout(text)) => assert_eq!(text, "Elapsed(())"),
        _ => panic!("expected a timeout"),
    }
}

#[test]
fn instants_never_run_backwards() {
    assert_eq!(at(7).duration_since(at(3)), Duration { nanos: 4 });
    assert_eq!(at(3).duration_since(at(7)), Duration { nanos: 0 });
}

#[test]
fn timeout_passes_on_what_was_done_in_time() {
    assert!(matches!(timeout(Waited::Done(Ok(3))), Ok(3)));
    let failed: Waited<Result<u8, Error>> = Waited::Done(Err(Error::Disconnected));
    assert!(matches!(timeout(failed), Err(Error::Disconnected)));
    let elapsed: Waited<Result<u8, Error>> = Waited::Elapsed;
    assert!(matches!(timeout(elapsed), Err(Error::Timeout(text)) if text == "Elapsed(())"));
}

#[test]
fn operations_are_refused_while_disconnected() {
    let mut client = connected();
    assert!(client.check_for_disconnect().is_ok());
    client.is_disconnected = true;
    assert!(matches!(client.check_for_disconnect(), Err(Error::Disconnected)));
    assert!(matches!(client.subscribe("/topic", "t"), Err(Error::Disconnected)));
    assert!(matches!(client.publish("/topic", json("{}")), Err(Error::Disconnected)));
    assert!(matches!(client.advertise("/topic", "t"), Err(Error::Disconnected)));
    assert!(matches!(client.advertise_service("/srv", "t", 1), Err(Error::Disconnected)));
    assert!(matches!(client.call_service("/srv", json("{}"), 1), Err(Error::Disconnected)));
    // A refused operation leaves nothing behind
    assert!(!client.inner.has_calls());
    assert!(client.inner.reconnect(at(1)).1.is_empty());
    client.is_disconnected = false;
    assert!(client.advertise("/topic", "t").is_ok());
    assert!(client.advertise_service("/srv", "t", 1).is_ok());
}

#[test]
fn publish_carries_its_message() {
    let client = connected();
    let frame = client.publish("/chatter", json(r#"{"data":"hi"}"#)).unwrap();
    assert_eq!(frame.op(), Ops::Publish);
    let Frame::Publish { topic, msg } = frame else { panic!("expected a publish") };
    assert_eq!(topic, "/chatter");
    assert_eq!(msg, json(r#"{"data":"hi"}"#));
}

#[test]
fn topic_is_advertised_once() {
    let mut client = connected();
    let frame = client.advertise("/chatter", "std_msgs/String").unwrap();
    let Frame::Advertise { topic, topic_type } = frame else { panic!("expected an advertise") };
    assert_eq!((topic.as_str(), topic_type.as_str()), ("/chatter", "std_msgs/String"));

    let Err(Error::Unexpected(text)) = client.advertise("/chatter", "std_msgs/Header") else {
        panic!("expected a second publisher to be refused");
    };
    assert_eq!(text, "Attempted to create two publisher to same topic, this is not supported");

    let frame = client.unadvertise("/chatter");
    assert!(matches!(frame, Frame::Unadvertise { topic } if topic == "/chatter"));
    assert!(client.advertise("/chatter", "std_msgs/Header").is_ok());
}

#[test]
fn service_is_advertised_once() {
    let mut client = connected();
    let frame = client.advertise_service("/srv", "std_srvs/SetBool", 8).unwrap();
    let Frame::AdvertiseService { service, service_type } = frame else {
        panic!("expected an advertise");
    };
    assert_eq!((service.as_str(), service_type.as_str()), ("/srv", "std_srvs/SetBool"));

    let Err(Error::Unexpected(text)) = client.advertise_service("/srv", "std_srvs/Empty", 9)
    else {
        panic!("expected a second server to be refused");
    };
    assert_eq!(
        text,
        "roslibrust does not support re-advertising a service without first dropping the previous Service"
    );

    let (callback, frame) = client.unadvertise_service("/srv");
    assert_eq!(callback, Some(8));
    assert!(matches!(frame, Frame::UnadvertiseService { service } if service == "/srv"));
    // The request is sent even where there was nothing to remove
    let (callback, frame) = client.unadvertise_service("/srv");
    assert_eq!(callback, None);
    assert_eq!(frame.op().name(), "unadvertise_service");
    assert!(client.advertise_service("/srv", "std_srvs/SetBool", 9).is_ok());
}

#[test]
fn service_call_is_served_with_its_arguments() {
    let mut client = connected();
    client.advertise_service("/srv", "std_srvs/SetBool", 8).unwrap();
    let dispatch = receive(
        &mut client,
        r#"{"op": "call_service", "service": "/srv", "args": { "b" : [1, 2.5], "a": null }}"#,
    );
    let Dispatch::Serve { callback, service, id, request } = dispatch else {
        panic!("expected the service to be run");
    };
    assert_eq!(callback, 8);
    assert_eq!(service, "/srv");
    assert_eq!(id, None);
    assert_eq!(request, r#"{"a":null,"b":[1,2.5]}"#);

    let frame = service_response(service, id, Served::Returned(json(r#"{"success":true}"#)));
    let Frame::ServiceResponse { service, id, result, values } = frame else {
        panic!("expected a response");
    };
    assert_eq!((service.as_str(), id, result), ("/srv", None, true));
    assert_eq!(values, json(r#"{"success":true}"#));

    let frame = service_response("/srv".to_string(), None, Served::Failed("bad".to_string()));
    let Frame::ServiceResponse { result, values, .. } = frame else {
        panic!("expected a response");
    };
    assert!(!result);
    assert_eq!(values, json("\"bad\""));
}

#[test]
fn service_client_names_its_service() {
    assert_eq!(connected().service_client("/srv").unwrap().service, "/srv");
}

#[test]
fn ignored_messages_say_why() {
    let mut client = connected();
    assert_eq!(ignored(&mut client, "{"), Ignored::MalformedJson);
    assert_eq!(ignored(&mut client, "[\"op\"]"), Ignored::MissingOp);
    assert_eq!(ignored(&mut client, r#"{"op":["publish"]}"#), Ignored::MissingOp);
    assert_eq!(ignored(&mut client, r#"{"op":"Publish"}"#), Ignored::UnknownOp);
    assert_eq!(ignored(&mut client, r#"{"op":"status","msg":"hi"}"#), Ignored::UnhandledOp);
    assert_eq!(ignored(&mut client, r#"{"op":"subscribe","topic":"/a"}"#), Ignored::UnhandledOp);
    assert_eq!(ignored(&mut client, r#"{"op":"publish","topic":1}"#), Ignored::MissingTopic);
    assert_eq!(ignored(&mut client, r#"{"op":"publish","topic":"/a","msg":{}}"#), Ignored::NotSubscribed);
    listen(&mut client, "/a", "t", 1);
    assert_eq!(ignored(&mut client, r#"{"op":"publish","topic":"/a"}"#), Ignored::MissingMsg);
    assert_eq!(ignored(&mut client, r#"{"op":"service_response","id":3}"#), Ignored::MissingCallId);
    assert_eq!(ignored(&mut client, r#"{"op":"service_response","id":"x"}"#), Ignored::UnknownCall);
    assert_eq!(ignored(&mut client, r#"{"op":"call_service","args":{}}"#), Ignored::MissingService);
    let call = r#"{"op":"call_service","service":"/srv","args":{}}"#;
    assert_eq!(ignored(&mut client, call), Ignored::NotAdvertised);
    client.advertise_service("/srv", "t", 1).unwrap();
    assert_eq!(ignored(&mut client, r#"{"op":"call_service","service":"/srv"}"#), Ignored::MissingArgs);
    let others = [
        (Message::Ping(vec![1]), Ignored::Ping),
        (Message::Binary(vec![]), Ignored::NotText),
        (Message::Frame, Ignored::NotText),
    ];
    for (message, expected) in others {
        match client.inner.handle_message(message, at(1)) {
            Ok(Dispatch::Ignored(reason)) => assert_eq!(reason, expected),
            other => panic!("expected {expected:?}, got {other:?}"),
        }
    }
}

#[test]
fn reads_that_fail_are_errors() {
    let mut client = connected();
    let failed = client.inner.spin_once(Read::Failed("broken pipe".to_string()), at(1));
    assert!(matches!(failed, Err(Error::IoError(text)) if text == "broken pipe"));
    let ended = client.inner.spin_once(Read::Ended, at(1));
    assert!(matches!(ended, Err(Error::Unexpected(text)) if text == "Wtf does none mean here?"));
    let close = Read::Message(Message::Close("None".to_string()));
    let closed = client.inner.spin_once(close, at(1));
    assert!(matches!(closed, Err(Error::Unexpected(text)) if text == "Close requested from server: None"));
}

#[test]
fn operation_names_are_read_back() {
    let ops = [
        Ops::Fragment, Ops::Png, Ops::SetLevel, Ops::Status, Ops::Auth, Ops::Advertise,
        Ops::Unadvertise, Ops::Publish, Ops::Subscribe, Ops::Unsubscribe, Ops::AdvertiseService,
        Ops::UnadvertiseService, Ops::CallService, Ops::ServiceResponse,
    ];
    for op in ops {
        assert_eq!(Ops::from_name(op.name()), Some(op));
    }
    assert_eq!(Ops::from_name(""), None);
    assert_eq!(Ops::ServiceResponse.name(), "service_response");
}

#[test]
fn decoding_reads_the_members() {
    let text = r#"{"op":"publish","topic":"/a","msg":{"z":1,"a":"\n"},"values":[ 1 ],"id":7}"#;
    let data = Incoming::decode(text).unwrap();
    assert_eq!(data.op, Ops::Publish);
    assert_eq!(data.topic.as_deref(), Some("/a"));
    assert_eq!(data.service, None);
    assert_eq!(data.id, None);
    assert_eq!(data.msg.as_deref(), Some(r#"{"a":"\n","z":1}"#));
    assert_eq!(data.args, None);
    assert_eq!(data.values, json("[1]"));
    let data = Incoming::decode(r#"{"op":"publish"}"#).unwrap();
    assert_eq!(data.values, serde_json::Value::Null);
}

#[test]
fn every_subscriber_receives_each_message() {
    let mut client = connected();
    listen(&mut client, "/chatter", "std_msgs/String", 10);
    listen(&mut client, "/chatter", "std_msgs/Header", 20);
    listen(&mut client, "/other", "std_msgs/String", 30);
    let message = r#"{"op":"publish","topic":"/chatter","msg":{"data":"hi"}}"#;
    let Dispatch::Deliver { mut handles, msg } = receive(&mut client, message) else {
        panic!("expected a delivery");
    };
    handles.sort();
    assert_eq!(handles, vec![10, 20]);
    assert_eq!(msg, r#"{"data":"hi"}"#);

    // The same subscriber again is still one subscriber
    listen(&mut client, "/chatter", "std_msgs/String", 10);
    let Dispatch::Deliver { handles, .. } = receive(&mut client, message) else {
        panic!("expected a delivery");
    };
    assert_eq!(handles.len(), 2);

    let (removal, frame) = client.unsubscribe("/chatter", 10);
    assert_eq!(removal, Removal::HandlesLeft);
    assert!(frame.is_none());
    let Dispatch::Deliver { handles, .. } = receive(&mut client, message) else {
        panic!("expected a delivery");
    };
    assert_eq!(handles, vec![20]);

    let (removal, frame) = client.unsubscribe("/chatter", 10);
    assert_eq!(removal, Removal::HandleNotFound);
    assert!(frame.is_none());
    let (removal, frame) = client.unsubscribe("/chatter", 20);
    assert_eq!(removal, Removal::Last);
    assert!(matches!(frame, Some(Frame::Unsubscribe { topic }) if topic == "/chatter"));
    let Dispatch::Deliver { handles, .. } = receive(&mut client, message) else {
        panic!("expected a delivery");
    };
    assert!(handles.is_empty());
    let (removal, frame) = client.unsubscribe("/nowhere", 20);
    assert_eq!(removal, Removal::TopicNotFound);
    assert!(frame.is_none());
}

#[test]
fn subscriber_listens_only_once_its_request_was_sent() {
    let mut client = connected();
    let frame = client.subscribe("/chatter", "std_msgs/String").unwrap();
    let Some(Frame::Subscribe { topic, topic_type }) = frame else {
        panic!("expected a subscribe")
    };
    assert_eq!((topic.as_str(), topic_type.as_str()), ("/chatter", "std_msgs/String"));
    let failed = Waited::Done(Err(Error::IoError("broken".to_string())));
    let result = client.subscribed("/chatter", "std_msgs/String", 1, failed);
    assert!(matches!(result, Err(Error::IoError(_))));
    let result = client.subscribed("/chatter", "std_msgs/String", 1, Waited::Elapsed);
    assert!(matches!(result, Err(Error::Timeout(_))));
    let message = r#"{"op":"publish","topic":"/chatter","msg":1}"#;
    let Dispatch::Deliver { handles, msg } = receive(&mut client, message) else {
        panic!("expected a delivery to nobody");
    };
    assert!(handles.is_empty());
    assert_eq!(msg, "1");
}

#[test]
fn response_reaches_its_caller_once() {
    let mut client = connected();
    let first = client.call_service_with_id("/srv", json("{}"), "a".to_string(), 1).unwrap();
    assert_eq!(first.replaced, None);
    client.call_service_with_id("/srv", json("{}"), "b".to_string(), 2).unwrap();
    let answer = r#"{"op":"service_response","id":"a","values":{"ok":true}}"#;
    let Dispatch::Respond { call, values } = receive(&mut client, answer) else {
        panic!("expected a response");
    };
    assert_eq!(call, 1);
    assert_eq!(values, json(r#"{"ok":true}"#));
    assert_eq!(ignored(&mut client, answer), Ignored::UnknownCall);
    let replied = client.call_replied("a", Waited::Done(Some(values))).unwrap();
    assert_eq!(replied, json(r#"{"ok":true}"#));

    // A response without values answers with null
    let Dispatch::Respond { call, values } =
        receive(&mut client, r#"{"op":"service_response","id":"b"}"#)
    else {
        panic!("expected a response");
    };
    assert_eq!(call, 2);
    assert_eq!(values, serde_json::Value::Null);
    assert!(!client.inner.has_calls());
}

#[test]
fn colliding_call_ids_replace_the_earlier_caller() {
    let mut client = connected();
    client.call_service_with_id("/srv", json("{}"), "a".to_string(), 1).unwrap();
    let second = client.call_service_with_id("/srv", json("{}"), "a".to_string(), 2).unwrap();
    assert_eq!(second.replaced, Some(1));
    assert_eq!(second.id, "a");
}

#[test]
fn unsent_call_is_not_tracked() {
    let mut client = connected();
    client.call_service_with_id("/srv", json("{}"), "a".to_string(), 1).unwrap();
    let failed = Waited::Done(Err(Error::IoError("broken".to_string())));
    assert!(matches!(client.call_sent("a", failed), Err(Error::IoError(_))));
    assert!(!client.inner.has_calls());
    client.call_service_with_id("/srv", json("{}"), "a".to_string(), 1).unwrap();
    assert!(matches!(client.call_sent("a", Waited::Elapsed), Err(Error::Timeout(_))));
    assert!(!client.inner.has_calls());
}

#[test]
fn call_ids_are_random_uuids() {
    let mut client = connected();
    let first = client.call_service("/srv", json(r#"{"data":true}"#), 1).unwrap();
    let second = client.call_service("/srv", json("{}"), 2).unwrap();
    assert_ne!(first.id, second.id);
    let id: Vec<char> = first.id.chars().collect();
    assert_eq!(id.len(), 36);
    for (i, c) in id.iter().enumerate() {
        match i {
            8 | 13 | 18 | 23 => assert_eq!(*c, '-'),
            14 => assert_eq!(*c, '4'),
            19 => assert!(matches!(c, '8' | '9' | 'a' | 'b')),
            _ => assert!(matches!(c, '0'..='9' | 'a'..='f')),
        }
    }
    let Frame::CallService { service, id, args } = first.frame else {
        panic!("expected a service call");
    };
    assert_eq!((service.as_str(), id), ("/srv", first.id));
    assert_eq!(args, json(r#"{"data":true}"#));
}

#[test]
fn call_errors_are_exact() {
    let mut client = connected();
    match client.call_replied("a", Waited::Elapsed) {
        Err(Error::Timeout(text)) => assert_eq!(text, "Service call timed out: Elapsed(())"),
        other => panic!("expected a timeout, got {other:?}"),
    }
    match client.call_replied("a", Waited::Done(None)) {
        Err(Error::Unexpected(text)) => assert_eq!(
            text,
            "Connection was reset while waiting for a service response: channel closed"
        ),
        other => panic!("expected a reset, got {other:?}"),
    }
    let unreadable: Result<(), String> = Err("not a unit".to_string());
    let result = reply_outcome(Some("oops".to_string()), unreadable);
    assert!(matches!(result, Err(Error::ServerError(text)) if text == "oops"));
}

#[test]
fn lost_connection_wakes_every_call() {
    let mut client = connected();
    for (id, call) in [("a", 5), ("b", 6), ("c", 7)] {
        client.call_service_with_id("/srv", json("{}"), id.to_string(), call).unwrap();
    }
    let lost = SpinEvent::HeartbeatChecked(Err(Error::Unexpected("silent".to_string())));
    let SpinAction::Reconnect { mut woken } = client.stubborn_spin(lost) else {
        panic!("expected a reconnect");
    };
    woken.sort();
    assert_eq!(woken, vec![5, 6, 7]);
    assert!(!client.inner.has_calls());
    assert_eq!(
        ignored(&mut client, r#"{"op":"service_response","id":"b","values":1}"#),
        Ignored::UnknownCall
    );
}

#[test]
fn reconnect_restores_publishers_subscriptions_and_services() {
    let mut client = connected();
    client.advertise("/a", "type_a").unwrap();
    client.advertise("/b", "type_b").unwrap();
    client.advertise("/c", "type_c").unwrap();
    client.unadvertise("/a");
    listen(&mut client, "/x", "type_x", 1);
    listen(&mut client, "/x", "other_type", 2);
    listen(&mut client, "/y", "type_y", 3);
    client.unsubscribe("/y", 3);
    client.advertise_service("/srv", "type_s", 1).unwrap();
    client.advertise_service("/gone", "type_g", 2).unwrap();
    client.unadvertise_service("/gone");

    let (_, frames) = client.inner.reconnect(at(9));
    let mut advertised = vec![];
    let mut subscribed = vec![];
    let mut served = vec![];
    for frame in frames {
        match frame {
            Frame::Advertise { topic, topic_type } => {
                assert!(subscribed.is_empty() && served.is_empty());
                advertised.push((topic, topic_type));
            }
            Frame::Subscribe { topic, topic_type } => {
                assert!(served.is_empty());
                subscribed.push((topic, topic_type));
            }
            Frame::AdvertiseService { service, service_type } => {
                served.push((service, service_type));
            }
            other => panic!("unexpected {other:?}"),
        }
    }
    advertised.sort();
    subscribed.sort();
    let pair = |a: &str, b: &str| (a.to_string(), b.to_string());
    assert_eq!(advertised, vec![pair("/b", "type_b"), pair("/c", "type_c")]);
    assert_eq!(subscribed, vec![pair("/x", "type_x"), pair("/y", "type_y")]);
    assert_eq!(served, vec![pair("/srv", "type_s")]);
}

#[test]
fn client_counts_as_disconnected_until_a_reconnect_succeeds() {
    let mut client = connected();
    assert!(matches!(client.stubborn_spin(SpinEvent::Spun(Waited::Done(Ok(())))), SpinAction::CheckHeartbeat));
    assert!(client.is_connected());
    let lost = SpinEvent::Spun(Waited::Done(Err(Error::IoError("broken".to_string()))));
    assert!(matches!(client.stubborn_spin(lost), SpinAction::Reconnect { .. }));
    assert!(!client.is_connected());
    let failed = SpinEvent::Reconnected(Err(Error::IoError("refused".to_string())));
    assert!(matches!(client.stubborn_spin(failed), SpinAction::Retry));
    assert!(!client.is_connected());
    assert!(matches!(client.stubborn_spin(SpinEvent::Reconnected(Ok(()))), SpinAction::Spin));
    assert!(client.is_connected());
}

#[test]
fn connecting_is_tried_until_it_succeeds() {
    let refused = connect(Err("refused".to_string()));
    assert_eq!(stubborn_connect(&refused), ConnectStep::Retry);
    assert!(matches!(refused, Err(Error::IoError(text)) if text == "refused"));
    assert_eq!(stubborn_connect(&connect(Ok(()))), ConnectStep::Connected);
}

#[test]
fn heartbeat_keeps_its_limits() {
    let mut client = connected();
    // The limits themselves: a ping is due at the interval, and the timeout must be exceeded
    assert!(matches!(client.inner.check_heartbeat(at(PING_INTERVAL - 1), true), Ok(HeartbeatStep::Wait)));
    assert!(matches!(client.inner.check_heartbeat(at(PING_INTERVAL), false), Ok(HeartbeatStep::Wait)));
    assert!(matches!(client.inner.check_heartbeat(at(PING_INTERVAL), true), Ok(HeartbeatStep::Ping)));
    assert!(matches!(client.inner.check_heartbeat(at(PING_INTERVAL), true), Ok(HeartbeatStep::Wait)));
    assert!(client.inner.check_heartbeat(at(PONG_TIMEOUT), false).is_ok());
    match client.inner.check_heartbeat(at(PONG_TIMEOUT + 1), true) {
        Err(Error::Unexpected(text)) => {
            assert_eq!(text, "No pong received in 5s, connection is presumed dead")
        }
        other => panic!("expected the connection to be presumed dead, got {other:?}"),
    }
    // A new socket starts afresh
    client.inner.reconnect(at(PONG_TIMEOUT + 1));
    assert!(matches!(client.inner.check_heartbeat(at(PONG_TIMEOUT + 1), true), Ok(HeartbeatStep::Wait)));
    assert!(client.inner.check_heartbeat(at(PONG_TIMEOUT * 2 + 1), true).is_ok());
}

#[test]
fn ping_that_cannot_be_sent_is_a_timeout() {
    let result = ping_outcome(Waited::Elapsed);
    assert!(matches!(result, Err(Error::Timeout(text)) if text == "Timed out sending websocket ping"));
    assert!(ping_outcome(Waited::Done(Ok(()))).is_ok());
}

#[test]
fn queue_holds_the_latest_messages() {
    let mut queue: MessageQueue<u32> = MessageQueue::new(3);
    assert!(matches!(queue.receive(None), Received::Skipped));
    for msg in 1..=3 {
        assert!(matches!(queue.receive(Some(msg)), Received::Queued));
    }
    assert_eq!(queue.try_push(9), Err(9));
    assert!(matches!(queue.receive(Some(4)), Received::QueuedDropping(1)));
    assert!(matches!(queue.receive(Some(5)), Received::QueuedDropping(2)));
    assert_eq!(queue.try_pop(), Some(3));
    assert_eq!(queue.try_pop(), Some(4));
    assert_eq!(queue.try_pop(), Some(5));
    assert_eq!(queue.try_pop(), None);
}

#[test]
fn queue_without_room_drops_every_message() {
    let mut queue: MessageQueue<u32> = MessageQueue::new(0);
    assert!(matches!(queue.receive(Some(1)), Received::Dropped(1)));
    assert_eq!(queue.try_pop(), None);
}

fn text(s: &str) -> String {
    s.to_string()
}

#[test]
fn frames_are_encoded_exactly() {
    let frames = [
        (
            Frame::Subscribe { topic: text("/a"), topic_type: text("std_msgs/String") },
            r#"{"op":"subscribe","topic":"/a","type":"std_msgs/String"}"#,
        ),
        (Frame::Unsubscribe { topic: text("/a") }, r#"{"op":"unsubscribe","topic":"/a"}"#),
        (
            Frame::Advertise { topic: text("/a"), topic_type: text("std_msgs/String") },
            r#"{"op":"advertise","topic":"/a","type":"std_msgs/String"}"#,
        ),
        (Frame::Unadvertise { topic: text("/a") }, r#"{"op":"unadvertise","topic":"/a"}"#),
        (
            Frame::Publish { topic: text("/a"), msg: json(r#"{"data":"\"hi\""}"#) },
            r#"{"msg":{"data":"\"hi\""},"op":"publish","topic":"/a"}"#,
        ),
        (
            Frame::AdvertiseService { service: text("/s"), service_type: text("std_srvs/SetBool") },
            r#"{"op":"advertise_service","service":"/s","type":"std_srvs/SetBool"}"#,
        ),
        (
            Frame::UnadvertiseService { service: text("/s") },
            r#"{"op":"unadvertise_service","service":"/s"}"#,
        ),
        (
            Frame::CallService { service: text("/s"), id: text("x"), args: json("[1]") },
            r#"{"args":[1],"id":"x","op":"call_service","service":"/s"}"#,
        ),
        (
            Frame::ServiceResponse { service: text("/s"), id: None, result: true, values: json("{}") },
            r#"{"op":"service_response","result":true,"service":"/s","values":{}}"#,
        ),
        (
            Frame::ServiceResponse {
                service: text("/s"),
                id: Some(text("x")),
                result: false,
                values: json("\"bad\""),
            },
            r#"{"id":"x","op":"service_response","result":false,"service":"/s","values":"bad"}"#,
        ),
    ];
    for (frame, expected) in frames {
        assert_eq!(frame.encode(), expected);
    }
}

#[test]
fn sent_frames_are_read_back() {
    let frame = Frame::Publish { topic: text("/a"), msg: json(r#"{"data":1}"#) };
    let data = Incoming::decode(&frame.encode()).unwrap();
    assert_eq!(data.op, Ops::Publish);
    assert_eq!(data.topic.as_deref(), Some("/a"));
    assert_eq!(data.msg.as_deref(), Some(r#"{"data":1}"#));

    let frame = Frame::CallService { service: text("/s"), id: text("x"), args: json("[1]") };
    let data = Incoming::decode(&frame.encode()).unwrap();
    assert_eq!(data.op, Ops::CallService);
    assert_eq!(data.service.as_deref(), Some("/s"));
    assert_eq!(data.id.as_deref(), Some("x"));
    assert_eq!(data.args.as_deref(), Some("[1]"));

    let frame = service_response(text("/s"), None, Served::Returned(json("null")));
    let data = Incoming::decode(&frame.encode()).unwrap();
    assert_eq!(data.op, Ops::ServiceResponse);
    assert_eq!(data.service.as_deref(), Some("/s"));
    assert_eq!(data.id, None);
    assert_eq!(data.values, serde_json::Value::Null);
}

#[test]
fn registrations_and_settings_last_through_a_lost_connection() {
    let opts = ClientHandleOptions::new("ws://host").timeout(Duration::from_secs(3));
    let mut client = ClientHandle::new_with_options(opts, 6, Waited::Done(START)).unwrap();
    client.advertise("/a", "type_a").unwrap();
    listen(&mut client, "/x", "type_x", 1);
    client.advertise_service("/srv", "type_s", 8).unwrap();

    client.stubborn_spin(SpinEvent::Spun(Waited::Done(Err(Error::Disconnected))));
    client.inner.abandon_calls();
    client.inner.reconnect(at(9));
    client.stubborn_spin(SpinEvent::Reconnected(Ok(())));

    assert_eq!(client.inner.label(), "ws://host #6");
    assert_eq!(client.inner.opts().deadline(), Some(Duration::from_secs(3)));
    assert!(matches!(client.advertise("/a", "type_a"), Err(Error::Unexpected(_))));
    let message = r#"{"op":"publish","topic":"/x","msg":1}"#;
    assert!(matches!(
        receive(&mut client, message),
        Dispatch::Deliver { handles, .. } if handles == vec![1]
    ));
    let call = r#"{"op":"call_service","service":"/srv","args":{}}"#;
    assert!(matches!(receive(&mut client, call), Dispatch::Serve { callback: 8, .. }));
    client.unadvertise_service("/srv");
    assert_eq!(ignored(&mut client, call), Ignored::NotAdvertised);
}

#[test]
fn call_keeps_its_caller_while_others_come_and_go() {
    let mut client = connected();
    client.call_service_with_id("/srv", json("{}"), text("a"), 1).unwrap();
    client.call_service_with_id("/srv", json("{}"), text("b"), 2).unwrap();
    assert!(client.call_replied("b", Waited::Elapsed).is_err());
    client.call_service_with_id("/srv", json("{}"), text("c"), 3).unwrap();
    receive(&mut client, r#"{"op":"service_response","id":"c"}"#);
    let answer = r#"{"op":"service_response","id":"a","values":5}"#;
    assert!(matches!(receive(&mut client, answer), Dispatch::Respond { call: 1, .. }));
    assert_eq!(ignored(&mut client, answer), Ignored::UnknownCall);
}

#[test]
fn subscribers_share_one_request() {
    let mut client = connected();
    let first = client.subscribe("/topic", "std_msgs/Header").unwrap();
    assert!(matches!(first, Some(Frame::Subscribe { topic, .. }) if topic == "/topic"));
    client.subscribed("/topic", "std_msgs/Header", 1, Waited::Done(Ok(()))).unwrap();
    // While the first one listens there is nothing more to send, whatever the type
    assert!(client.subscribe("/topic", "std_msgs/Header").unwrap().is_none());
    client.subscribed("/topic", "std_msgs/Header", 2, Waited::Done(Ok(()))).unwrap();
    assert!(client.subscribe("/topic", "std_msgs/String").unwrap().is_none());
    // Another topic is another subscription
    assert!(client.subscribe("/other", "std_msgs/Header").unwrap().is_some());

    client.unsubscribe("/topic", 1);
    assert!(client.subscribe("/topic", "std_msgs/Header").unwrap().is_none());
    client.unsubscribe("/topic", 2);
    let again = client.subscribe("/topic", "std_msgs/String").unwrap();
    assert!(matches!(again, Some(Frame::Subscribe { topic_type, .. }) if topic_type == "std_msgs/String"));
    // A request that was not sent is handed out again
    assert!(client.subscribed("/topic", "std_msgs/String", 3, Waited::Elapsed).is_err());
    assert!(client.subscribe("/topic", "std_msgs/String").unwrap().is_some());
}

#[test]
fn every_operation_keeps_its_deadline() {
    let opts = ClientHandleOptions::new("ws://host").timeout(Duration::from_millis(50));
    let mut client = ClientHandle::new_with_options(opts, 0, Waited::Done(START)).unwrap();
    assert_eq!(client.inner.opts().deadline(), Some(Duration::from_millis(50)));
    client.advertise("/topic", "t").unwrap();
    assert!(matches!(client.sent(Waited::Elapsed), Err(Error::Timeout(text)) if text == "Elapsed(())"));
    client.publish("/topic", json("{}")).unwrap();
    assert!(matches!(client.sent(Waited::Elapsed), Err(Error::Timeout(_))));
    client.advertise_service("/srv", "t", 1).unwrap();
    assert!(matches!(client.sent(Waited::Elapsed), Err(Error::Timeout(_))));
    assert!(client.sent(Waited::Done(Ok(()))).is_ok());
    let failed = Waited::Done(Err(Error::IoError("broken".to_string())));
    assert!(matches!(client.sent(failed), Err(Error::IoError(text)) if text == "broken"));
}

#[test]
fn reconnecting_leaves_no_call() {
    let mut client = connected();
    client.call_service_with_id("/srv", json("{}"), text("a"), 1).unwrap();
    assert_eq!(client.inner.abandon_calls(), vec![1]);
    assert!(client.inner.reconnect(at(1)).0.is_empty());
    assert!(!client.inner.has_calls());
    // Calls that were not given up before are given up then
    client.call_service_with_id("/srv", json("{}"), text("a"), 2).unwrap();
    assert_eq!(client.inner.reconnect(at(2)).0, vec![2]);
    assert!(!client.inner.has_calls());
    let answer = r#"{"op":"service_response","id":"a","values":5}"#;
    assert_eq!(ignored(&mut client, answer), Ignored::UnknownCall);
}
