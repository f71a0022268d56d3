//! What each operation promises: when it succeeds, what it records, what is sent, and that it
//! touches nothing else.
use crate::client::{self, ClientView, DispatchView, Read, Removal};
use crate::error::{self, Error, ErrorView, Waited};
use crate::frame::{Frame, FrameView};
use crate::handle::{self, HandleView, ServiceCallView};
use crate::heartbeat::Heartbeat;
use crate::json::{self, Json};
use crate::label;
use crate::message::{self, Ignored, IncomingView, Message, Ops};
use crate::options::OptionsView;
use crate::service::{self, ServiceView};
use crate::spin::{self, SpinAction, SpinEvent, SpinNext};
use crate::subscription::SubscriptionView;
use crate::table;
use crate::time::{Duration, Instant};
use vstd::prelude::*;

verus! {

/// What finished in time is passed on as it is, a value or an error. Only a passed deadline is a
/// timeout.
pub proof fn waiting_passes_on_what_finished<T>(value: T, error: Error)
    ensures
        error::timeout_outcome(Waited::Done(Ok::<T, Error>(value))) == Ok::<T, ErrorView>(value),
        error::timeout_outcome(Waited::Done(Err::<T, Error>(error))) == Err::<T, ErrorView>(error@),
        error::timeout_outcome::<T>(Waited::Elapsed) == Err::<T, ErrorView>(
            ErrorView::Timeout("Elapsed(())"@),
        ),
{
}

/// An operation whose request was sent in time ends as the sending did, and one whose was not with
/// a timeout, in whatever state the handle is.
pub proof fn operation_ends_as_its_sending(handle: HandleView, error: Error)
    ensures
        handle.sent(Waited::Done(Ok(()))) == Ok::<(), ErrorView>(()),
        handle.sent(Waited::Done(Err(error))) == Err::<(), ErrorView>(error@),
        handle.sent(Waited::Elapsed) == Err::<(), ErrorView>(ErrorView::Timeout("Elapsed(())"@)),
{
}

/// The id of a call is a version 4 uuid in its usual form: groups of 8, 4, 4, 4 and 12 lower case
/// hexadecimal digits with hyphens between them.
pub proof fn call_ids_have_the_form_of_uuids(id: Seq<char>, i: int)
    requires
        handle::is_random_uuid(id),
    ensures
        id.len() == 8 + 1 + 4 + 1 + 4 + 1 + 4 + 1 + 12,
        id[8] == '-' && id[13] == '-' && id[18] == '-' && id[23] == '-',
        id[14] == '4',
        id[19] == '8' || id[19] == '9' || id[19] == 'a' || id[19] == 'b',
        0 <= i < id.len() && i != 8 && i != 13 && i != 18 && i != 23 ==> '0' <= id[i] <= '9' || 'a'
            <= id[i] <= 'f',
{
    assert(id[8] == '-');
    assert(id[13] == '-');
    assert(id[18] == '-');
    assert(id[23] == '-');
}

/// A new handle is connected, has its options and the label of its number, counts its pings and
/// pongs from now, and has nothing advertised, subscribed to or called.
pub proof fn new_handle_starts_empty(
    opts: OptionsView,
    id: usize,
    now: Instant,
    name: Seq<char>,
)
    ensures
        ({
            let handle = handle::connected_handle(opts, id, now);
            &&& handle.connected
            &&& handle.client.opts == opts
            &&& handle.client.label == label::label(opts, id as nat)
            &&& handle.client.heartbeat.last_ping_sent == now
            &&& handle.client.heartbeat.last_pong_received == now
            &&& !handle.client.publishers.contains_key(name)
            &&& !handle.client.subscriptions.contains_key(name)
            &&& !handle.client.services.contains_key(name)
            &&& !handle.client.service_calls.contains_key(name)
        }),
{
}

/// While disconnected a subscribe is refused and changes nothing. Otherwise it opens the topic
/// with its type unless it is open already, and hands out a request with the topic and the type
/// exactly if there is no subscriber on the topic.
pub proof fn subscribe_opens_the_topic(
    handle: HandleView,
    topic: Seq<char>,
    topic_type: Seq<char>,
)
    ensures
        ({
            let known = handle.client.subscriptions;
            let (after, result) = handle.subscribe(topic, topic_type);
            &&& after.connected == handle.connected
            &&& after.client == ClientView {
                subscriptions: after.client.subscriptions,
                ..handle.client
            }
            &&& !handle.connected ==> after == handle && result == Err::<
                Option<FrameView>,
                ErrorView,
            >(ErrorView::Disconnected)
            &&& handle.connected && known.contains_key(topic) ==> after == handle
            &&& handle.connected && !known.contains_key(topic) ==> after.client.subscriptions
                == known.insert(
                topic,
                SubscriptionView { topic_type, handles: Set::<u128>::empty() },
            )
            &&& handle.connected && (exists|id: u128|
                known.contains_key(topic) && #[trigger] known[topic].handles.contains(id))
                ==> result == Ok::<Option<FrameView>, ErrorView>(None)
            &&& handle.connected && (forall|id: u128|
                !(known.contains_key(topic) && #[trigger] known[topic].handles.contains(id)))
                ==> result == Ok::<Option<FrameView>, ErrorView>(
                Some(FrameView::Subscribe { topic, topic_type }),
            )
        }),
{
    let known = handle.client.subscriptions;
    if known.contains_key(topic) && (forall|id: u128| ! #[trigger] known[topic].handles.contains(
        id,
    )) {
        assert(known[topic].handles =~= Set::<u128>::empty());
    }
}

/// A subscriber whose request was sent listens on its topic, beside those who did before. The topic
/// keeps the type that it has, or takes that of the subscriber. One whose request was not sent
/// does not listen, and is told why.
pub proof fn subscriber_listens_once_its_request_was_sent(
    handle: HandleView,
    topic: Seq<char>,
    topic_type: Seq<char>,
    id: u128,
    error: Error,
)
    ensures
        ({
            let known = handle.client.subscriptions;
            let (after, result) = handle.subscribed(
                topic,
                topic_type,
                id,
                Waited::Done(Ok(())),
            );
            &&& result == Ok::<(), ErrorView>(())
            &&& after.connected == handle.connected
            &&& after.client == ClientView {
                subscriptions: after.client.subscriptions,
                ..handle.client
            }
            &&& known.contains_key(topic) ==> after.client.subscriptions == known.insert(
                topic,
                SubscriptionView {
                    topic_type: known[topic].topic_type,
                    handles: known[topic].handles.insert(id),
                },
            )
            &&& !known.contains_key(topic) ==> after.client.subscriptions == known.insert(
                topic,
                SubscriptionView { topic_type, handles: Set::<u128>::empty().insert(id) },
            )
        }),
        handle.subscribed(topic, topic_type, id, Waited::Done(Err(error))) == (
            handle,
            Err::<(), ErrorView>(error@),
        ),
        handle.subscribed(topic, topic_type, id, Waited::Elapsed) == (
            handle,
            Err::<(), ErrorView>(ErrorView::Timeout("Elapsed(())"@)),
        ),
{
    let known = handle.client.subscriptions;
    let after = handle.subscribed(topic, topic_type, id, Waited::Done(Ok(()))).0;
    if !known.contains_key(topic) {
        assert(after.client.subscriptions =~= known.insert(
            topic,
            SubscriptionView { topic_type, handles: Set::<u128>::empty().insert(id) },
        ));
    }
}

/// A subscriber that leaves is struck off its topic and nobody else is. Whether it was the last is
/// told exactly, and where it was not there nothing changes.
pub proof fn unsubscribe_strikes_off_the_subscriber(handle: HandleView, topic: Seq<char>, id: u128)
    ensures
        ({
            let known = handle.client.subscriptions;
            let (after, removal) = handle.unsubscribe(topic, id);
            let listed = known.contains_key(topic) && known[topic].handles.contains(id);
            &&& !known.contains_key(topic) ==> after == handle && removal == Removal::TopicNotFound
            &&& known.contains_key(topic) && !listed ==> after == handle && removal
                == Removal::HandleNotFound
            &&& listed ==> {
                &&& after == HandleView {
                    client: ClientView {
                        subscriptions: known.insert(
                            topic,
                            SubscriptionView {
                                topic_type: known[topic].topic_type,
                                handles: known[topic].handles.remove(id),
                            },
                        ),
                        ..handle.client
                    },
                    ..handle
                }
                &&& removal == Removal::Last || removal == Removal::HandlesLeft
                &&& removal == Removal::Last <==> forall|other: u128| #[trigger]
                    known[topic].handles.contains(other) ==> other == id
            }
        }),
{
    let known = handle.client.subscriptions;
    if known.contains_key(topic) && known[topic].handles.contains(id) {
        let left = known[topic].handles.remove(id);
        if forall|other: u128| #[trigger] known[topic].handles.contains(other) ==> other == id {
            assert(left =~= Set::<u128>::empty());
        } else {
            let other = choose|other: u128| #[trigger]
                known[topic].handles.contains(other) && other != id;
            assert(left.contains(other));
        }
    }
}

/// A publish is sent with its topic and its message exactly if there is a connection.
pub proof fn publish_sends_the_message(handle: HandleView, topic: Seq<char>, msg: Json)
    ensures
        handle.connected ==> handle.publish(topic, msg) == Ok::<FrameView, ErrorView>(
            FrameView::Publish { topic, msg },
        ),
        !handle.connected ==> handle.publish(topic, msg) == Err::<FrameView, ErrorView>(
            ErrorView::Disconnected,
        ),
{
}

/// An advertise succeeds exactly if there is a connection and the topic has no publisher. It then
/// records the topic with its own type, whatever the options are, sends the same, and touches
/// nothing else, and every new socket is told that type. Where it fails nothing changes.
pub proof fn advertise_records_the_type(
    handle: HandleView,
    topic: Seq<char>,
    topic_type: Seq<char>,
    frames: Seq<FrameView>,
)
    ensures
        ({
            let known = handle.client.publishers;
            let (after, result) = handle.advertise(topic, topic_type);
            let request = FrameView::Advertise { topic, topic_type };
            &&& result is Ok <==> handle.connected && !known.contains_key(topic)
            &&& result is Ok ==> {
                &&& result == Ok::<FrameView, ErrorView>(request)
                &&& after == HandleView {
                    client: ClientView {
                        publishers: known.insert(topic, topic_type),
                        ..handle.client
                    },
                    ..handle
                }
                &&& client::restores(frames, after.client) ==> frames.contains(request)
                &&& forall|other: Seq<char>|
                    client::restores(frames, after.client) && #[trigger] frames.contains(
                        FrameView::Advertise { topic, topic_type: other },
                    ) ==> other == topic_type
            }
            &&& result is Err ==> after == handle
            &&& !handle.connected ==> result == Err::<FrameView, ErrorView>(
                ErrorView::Disconnected,
            )
            &&& handle.connected && known.contains_key(topic) ==> result == Err::<
                FrameView,
                ErrorView,
            >(
                ErrorView::Unexpected(
                    "Attempted to create two publisher to same topic, this is not supported"@,
                ),
            )
        }),
{
    let after = handle.advertise(topic, topic_type).0;
    assert(handle.connected && !handle.client.publishers.contains_key(topic) ==> client::restoring(
        after.client,
        FrameView::Advertise { topic, topic_type },
    ));
    assert forall|other: Seq<char>|
        handle.advertise(topic, topic_type).1 is Ok && client::restores(frames, after.client)
            && #[trigger] frames.contains(
            FrameView::Advertise { topic, topic_type: other },
        ) implies other == topic_type by {
        assert(client::restoring(after.client, FrameView::Advertise { topic, topic_type: other }));
    }
}

/// An unadvertise strikes off its topic and touches nothing else.
pub proof fn unadvertise_strikes_off_the_topic(handle: HandleView, topic: Seq<char>)
    ensures
        handle.unadvertise(topic) == (HandleView {
            client: ClientView {
                publishers: handle.client.publishers.remove(topic),
                ..handle.client
            },
            ..handle
        }),
{
}

/// Advertising a service succeeds exactly if there is a connection and the service has no server.
/// It then records the service with its own type and callback, sends its name and type, and touches
/// nothing else, and every new socket is told that type. Where it fails nothing changes.
pub proof fn advertise_service_records_type_and_callback(
    handle: HandleView,
    service: Seq<char>,
    service_type: Seq<char>,
    callback: u64,
    frames: Seq<FrameView>,
)
    ensures
        ({
            let known = handle.client.services;
            let (after, result) = handle.advertise_service(service, service_type, callback);
            let request = FrameView::AdvertiseService { service, service_type };
            &&& result is Ok <==> handle.connected && !known.contains_key(service)
            &&& result is Ok ==> {
                &&& result == Ok::<FrameView, ErrorView>(request)
                &&& after == HandleView {
                    client: ClientView {
                        services: known.insert(service, ServiceView { service_type, callback }),
                        ..handle.client
                    },
                    ..handle
                }
                &&& client::restores(frames, after.client) ==> frames.contains(request)
                &&& forall|other: Seq<char>|
                    client::restores(frames, after.client) && #[trigger] frames.contains(
                        FrameView::AdvertiseService { service, service_type: other },
                    ) ==> other == service_type
            }
            &&& result is Err ==> after == handle
            &&& !handle.connected ==> result == Err::<FrameView, ErrorView>(
                ErrorView::Disconnected,
            )
            &&& handle.connected && known.contains_key(service) ==> result == Err::<
                FrameView,
                ErrorView,
            >(
                ErrorView::Unexpected(
                    "roslibrust does not support re-advertising a service without first dropping the previous Service"@,
                ),
            )
        }),
{
    let after = handle.advertise_service(service, service_type, callback).0;
    assert(handle.connected && !handle.client.services.contains_key(service) ==> client::restoring(
        after.client,
        FrameView::AdvertiseService { service, service_type },
    ));
    assert forall|other: Seq<char>|
        handle.advertise_service(service, service_type, callback).1 is Ok && client::restores(
            frames,
            after.client,
        ) && #[trigger] frames.contains(
            FrameView::AdvertiseService { service, service_type: other },
        ) implies other == service_type by {
        assert(client::restoring(
            after.client,
            FrameView::AdvertiseService { service, service_type: other },
        ));
    }
}

/// Unadvertising a service strikes it off, hands back the callback that was on record for it, and
/// touches nothing else.
pub proof fn unadvertise_service_strikes_off_the_service(handle: HandleView, service: Seq<char>)
    ensures
        handle.unadvertise_service(service) == (HandleView {
            client: ClientView {
                services: handle.client.services.remove(service),
                ..handle.client
            },
            ..handle
        }),
        ({
            let known = handle.client.services;
            let callback = service::callback_of(table::found(known, service));
            &&& known.contains_key(service) ==> callback == Some(known[service].callback)
            &&& !known.contains_key(service) ==> callback is None
        }),
{
}

/// A look-up finds what stands under the name, and nothing where nothing does.
pub proof fn look_ups_find_what_is_there<V>(contents: Map<Seq<char>, V>, name: Seq<char>)
    ensures
        contents.contains_key(name) ==> table::found(contents, name) == Some(contents[name]),
        !contents.contains_key(name) ==> table::found(contents, name) is None,
{
}

/// A call is recorded under its id for its caller and sent with its service, id and arguments
/// exactly if there is a connection. The caller that it replaces is told, and nothing else is
/// touched.
pub proof fn call_is_recorded_and_sent(
    handle: HandleView,
    service: Seq<char>,
    args: Json,
    id: Seq<char>,
    call: u64,
)
    ensures
        ({
            let known = handle.client.service_calls;
            let (after, result) = handle.call_service(service, args, id, call);
            &&& !handle.connected ==> after == handle && result == Err::<
                ServiceCallView,
                ErrorView,
            >(ErrorView::Disconnected)
            &&& handle.connected ==> {
                &&& after == HandleView {
                    client: ClientView { service_calls: known.insert(id, call), ..handle.client },
                    ..handle
                }
                &&& result matches Ok(recorded)
                &&& recorded.id == id
                &&& recorded.frame == FrameView::CallService { service, id, args }
                &&& known.contains_key(id) ==> recorded.replaced == Some(known[id])
                &&& !known.contains_key(id) ==> recorded.replaced is None
            }
        }),
{
}

/// A call whose request was sent stays on record, and its response is waited for under the timeout
/// of the options, if that is not zero. One whose request was not sent is struck off, alone, and
/// its caller is told why.
pub proof fn call_stays_once_its_request_was_sent(handle: HandleView, id: Seq<char>, error: Error)
    ensures
        ({
            let limit = handle.client.opts.timeout;
            let (after, result) = handle.call_sent(id, Waited::Done(Ok(())));
            &&& after == handle
            &&& limit is Some && limit->0.nanos > 0 ==> result == Ok::<Option<Duration>, ErrorView>(
                limit,
            )
            &&& limit is None || limit->0.nanos == 0 ==> result == Ok::<
                Option<Duration>,
                ErrorView,
            >(None)
        }),
        ({
            let struck_off = HandleView {
                client: ClientView {
                    service_calls: handle.client.service_calls.remove(id),
                    ..handle.client
                },
                ..handle
            };
            &&& handle.call_sent(id, Waited::Done(Err(error))) == (
                struck_off,
                Err::<Option<Duration>, ErrorView>(error@),
            )
            &&& handle.call_sent(id, Waited::Elapsed) == (
                struck_off,
                Err::<Option<Duration>, ErrorView>(ErrorView::Timeout("Elapsed(())"@)),
            )
        }),
{
}

/// A response is handed to its caller as it is. A caller woken without one is told of the reset. A
/// caller whose deadline passed is told so, and its call is struck off, alone.
pub proof fn caller_is_told_what_came(
    handle: HandleView,
    id: Seq<char>,
    values: serde_json::Value,
)
    ensures
        handle.call_replied(id, Waited::Done(Some(values))) == (
            handle,
            Ok::<Json, ErrorView>(json::json_of(values)),
        ),
        handle.call_replied(id, Waited::Done(None)) == (
            handle,
            Err::<Json, ErrorView>(
                ErrorView::Unexpected(
                    "Connection was reset while waiting for a service response: channel closed"@,
                ),
            ),
        ),
        handle.call_replied(id, Waited::Elapsed) == (
            HandleView {
                client: ClientView {
                    service_calls: handle.client.service_calls.remove(id),
                    ..handle.client
                },
                ..handle
            },
            Err::<Json, ErrorView>(ErrorView::Timeout("Service call timed out: Elapsed(())"@)),
        ),
{
}

/// An answer that reads as the response is what the call returns, whether it is a string or not.
/// Only one that does not is an error: the server's if it is a string, and otherwise that of the
/// reading.
pub proof fn answer_that_reads_as_the_response_is_returned<T>(
    message: Option<Seq<char>>,
    response: T,
    text: Seq<char>,
    reason: String,
)
    ensures
        handle::reply_result(message, Ok::<T, String>(response)) == Ok::<T, ErrorView>(response),
        handle::reply_result(Some(text), Err::<T, String>(reason)) == Err::<T, ErrorView>(
            ErrorView::ServerError(text),
        ),
        handle::reply_result(None, Err::<T, String>(reason)) == Err::<T, ErrorView>(
            ErrorView::SerializationError(reason@),
        ),
{
}

/// A publish that is read from the websocket is handed, with its message, to all who listen on its
/// topic and to nobody else. The client stays as it is.
pub proof fn publish_that_is_read_is_delivered(
    client: ClientView,
    text: String,
    topic: Seq<char>,
    msg: Seq<char>,
    now: Instant,
)
    requires
        message::incoming(text@) matches Ok(data) && data.op == Ops::Publish && data.topic == Some(
            topic,
        ) && data.msg == Some(msg),
    ensures
        ({
            let (after, result) = client.read_handled(Read::Message(Message::Text(text)), now);
            &&& after == client
            &&& client.subscriptions.contains_key(topic) ==> result == Ok::<DispatchView, ErrorView>(
                DispatchView::Deliver { handles: client.subscriptions[topic].handles, msg },
            )
            &&& !client.subscriptions.contains_key(topic) ==> result == Ok::<
                DispatchView,
                ErrorView,
            >(DispatchView::Ignored(Ignored::NotSubscribed))
        }),
{
}

/// A service response that is read from the websocket is handed, with its values, to the caller
/// that waits under its id, who alone stops waiting. Where nobody waits under it, it is ignored.
pub proof fn response_that_is_read_is_handed_over(
    client: ClientView,
    text: String,
    id: Seq<char>,
    values: Json,
    now: Instant,
)
    requires
        message::incoming(text@) matches Ok(data) && data.op == Ops::ServiceResponse && data.id
            == Some(id) && data.values == values,
    ensures
        ({
            let (after, result) = client.read_handled(Read::Message(Message::Text(text)), now);
            let known = client.service_calls;
            &&& after == ClientView { service_calls: known.remove(id), ..client }
            &&& known.contains_key(id) ==> result == Ok::<DispatchView, ErrorView>(
                DispatchView::Respond { call: known[id], values },
            )
            &&& !known.contains_key(id) ==> after == client && result == Ok::<
                DispatchView,
                ErrorView,
            >(DispatchView::Ignored(Ignored::UnknownCall))
        }),
{
    if !client.service_calls.contains_key(id) {
        assert(client.service_calls.remove(id) =~= client.service_calls);
    }
}

/// A service call that is read from the websocket runs the callback on record for its service on
/// its arguments, to be answered under its id. The client stays as it is.
pub proof fn service_call_that_is_read_is_served(
    client: ClientView,
    text: String,
    service: Seq<char>,
    id: Option<Seq<char>>,
    request: Seq<char>,
    now: Instant,
)
    requires
        message::incoming(text@) matches Ok(data) && data.op == Ops::CallService && data.service
            == Some(service) && data.id == id && data.args == Some(request),
    ensures
        ({
            let (after, result) = client.read_handled(Read::Message(Message::Text(text)), now);
            &&& after == client
            &&& client.services.contains_key(service) ==> result == Ok::<DispatchView, ErrorView>(
                DispatchView::Serve {
                    callback: client.services[service].callback,
                    service,
                    id,
                    request,
                },
            )
            &&& !client.services.contains_key(service) ==> result == Ok::<DispatchView, ErrorView>(
                DispatchView::Ignored(Ignored::NotAdvertised),
            )
        }),
{
}

/// A text that is read from the websocket and lacks what its operation needs, or asks for nothing
/// that a client does, is ignored for that reason, and changes nothing.
pub proof fn incomplete_text_is_ignored(client: ClientView, text: String, now: Instant)
    ensures
        ({
            let (after, result) = client.read_handled(Read::Message(Message::Text(text)), now);
            let ignored = |reason: Ignored|
                after == client && result == Ok::<DispatchView, ErrorView>(
                    DispatchView::Ignored(reason),
                );
            match message::incoming(text@) {
                Err(reason) => ignored(reason),
                Ok(data) => match data.op {
                    Ops::Publish => {
                        &&& data.topic is None ==> ignored(Ignored::MissingTopic)
                        &&& data.topic is Some && data.msg is None ==> ignored(
                            if client.subscriptions.contains_key(data.topic->0) {
                                Ignored::MissingMsg
                            } else {
                                Ignored::NotSubscribed
                            },
                        )
                    },
                    Ops::ServiceResponse => data.id is None ==> ignored(Ignored::MissingCallId),
                    Ops::CallService => {
                        &&& data.service is None ==> ignored(Ignored::MissingService)
                        &&& data.service is Some && data.args is None ==> ignored(
                            if client.services.contains_key(data.service->0) {
                                Ignored::MissingArgs
                            } else {
                                Ignored::NotAdvertised
                            },
                        )
                    },
                    _ => ignored(Ignored::UnhandledOp),
                },
            }
        }),
{
}

/// A pong counts from the moment that it is read and does nothing else. Pings, binary messages and
/// raw frames change nothing. A close, a failed read and the end of the stream are errors that
/// carry what is known of them, and change nothing either.
pub proof fn other_reads_are_answered(
    client: ClientView,
    payload: Vec<u8>,
    reason: String,
    now: Instant,
)
    ensures
        client.read_handled(Read::Message(Message::Pong(payload)), now) == (
            ClientView {
                heartbeat: Heartbeat {
                    last_ping_sent: client.heartbeat.last_ping_sent,
                    last_pong_received: now,
                },
                ..client
            },
            Ok::<DispatchView, ErrorView>(DispatchView::Pong),
        ),
        client.read_handled(Read::Message(Message::Ping(payload)), now) == (
            client,
            Ok::<DispatchView, ErrorView>(DispatchView::Ignored(Ignored::Ping)),
        ),
        client.read_handled(Read::Message(Message::Binary(payload)), now) == (
            client,
            Ok::<DispatchView, ErrorView>(DispatchView::Ignored(Ignored::NotText)),
        ),
        client.read_handled(Read::Message(Message::Frame), now) == (
            client,
            Ok::<DispatchView, ErrorView>(DispatchView::Ignored(Ignored::NotText)),
        ),
        client.read_handled(Read::Message(Message::Close(reason)), now) == (
            client,
            Err::<DispatchView, ErrorView>(
                ErrorView::Unexpected("Close requested from server: "@ + reason@),
            ),
        ),
        client.read_handled(Read::Failed(reason), now) == (
            client,
            Err::<DispatchView, ErrorView>(ErrorView::IoError(reason@)),
        ),
        client.read_handled(Read::Ended, now) == (
            client,
            Err::<DispatchView, ErrorView>(ErrorView::Unexpected("Wtf does none mean here?"@)),
        ),
{
}

/// Whatever else it says, a publish with a topic and a message goes to all who listen on that topic,
/// and one that lacks either, or whose topic nobody ever subscribed to, is ignored for that reason.
pub proof fn publish_goes_to_all_who_listen(client: ClientView, data: IncomingView)
    ensures
        ({
            let known = client.subscriptions;
            let answer = client.publish_handled(data);
            &&& data.topic is None ==> answer == DispatchView::Ignored(Ignored::MissingTopic)
            &&& data.topic is Some && !known.contains_key(data.topic->0) ==> answer
                == DispatchView::Ignored(Ignored::NotSubscribed)
            &&& data.topic is Some && known.contains_key(data.topic->0) && data.msg is None
                ==> answer == DispatchView::Ignored(Ignored::MissingMsg)
            &&& data.topic is Some && known.contains_key(data.topic->0) && data.msg is Some
                ==> answer == (DispatchView::Deliver {
                handles: known[data.topic->0].handles,
                msg: data.msg->0,
            })
        }),
{
}

/// Whatever else it says, a response goes to the caller that waits under its id, who alone stops
/// waiting. One without an id, or under whose id nobody waits, is ignored and changes nothing.
pub proof fn response_goes_to_who_waits(client: ClientView, data: IncomingView)
    ensures
        ({
            let known = client.service_calls;
            let (after, answer) = client.response_handled(data);
            &&& data.id is None ==> after == client && answer == DispatchView::Ignored(
                Ignored::MissingCallId,
            )
            &&& data.id is Some && !known.contains_key(data.id->0) ==> after == client && answer
                == DispatchView::Ignored(Ignored::UnknownCall)
            &&& data.id is Some && known.contains_key(data.id->0) ==> {
                &&& after == ClientView { service_calls: known.remove(data.id->0), ..client }
                &&& answer == DispatchView::Respond {
                    call: known[data.id->0],
                    values: data.values,
                }
            }
        }),
{
}

/// Whatever else it says, a service call with a service and arguments runs the callback on record
/// for that service on them, and one that lacks either, or whose service is not advertised, is
/// ignored for that reason.
pub proof fn service_call_runs_the_callback(client: ClientView, data: IncomingView)
    ensures
        ({
            let known = client.services;
            let answer = client.service_handled(data);
            &&& data.service is None ==> answer == DispatchView::Ignored(Ignored::MissingService)
            &&& data.service is Some && !known.contains_key(data.service->0) ==> answer
                == DispatchView::Ignored(Ignored::NotAdvertised)
            &&& data.service is Some && known.contains_key(data.service->0) && data.args is None
                ==> answer == DispatchView::Ignored(Ignored::MissingArgs)
            &&& data.service is Some && known.contains_key(data.service->0) && data.args is Some
                ==> answer == (DispatchView::Serve {
                callback: known[data.service->0].callback,
                service: data.service->0,
                id: data.id,
                request: data.args->0,
            })
        }),
{
}

/// An operation is answered as what it is: publishes, responses and service calls each in their
/// way, and all others by ignoring them. Only a response changes the client.
pub proof fn operations_are_told_apart(client: ClientView, data: IncomingView)
    ensures
        data.op == Ops::Publish ==> client.incoming_handled(data) == (
            client,
            client.publish_handled(data),
        ),
        data.op == Ops::CallService ==> client.incoming_handled(data) == (
            client,
            client.service_handled(data),
        ),
        data.op == Ops::ServiceResponse ==> client.incoming_handled(data)
            == client.response_handled(data),
        data.op != Ops::Publish && data.op != Ops::CallService && data.op != Ops::ServiceResponse
            ==> client.incoming_handled(data) == (
            client,
            DispatchView::Ignored(Ignored::UnhandledOp),
        ),
{
}

/// A message, a text and a read text are answered alike, whichever way they are handed in.
pub proof fn messages_are_answered_alike(
    client: ClientView,
    msg: Message,
    text: String,
    characters: Seq<char>,
    now: Instant,
)
    ensures
        client.message_handled(msg, now) == client.read_handled(Read::Message(msg), now),
        client.read_handled(Read::Message(Message::Text(text)), now) == (
            client.text_handled(text@).0,
            Ok::<DispatchView, ErrorView>(client.text_handled(text@).1),
        ),
        match message::incoming(characters) {
            Ok(data) => client.text_handled(characters) == client.incoming_handled(data),
            Err(reason) => client.text_handled(characters) == (
                client,
                DispatchView::Ignored(reason),
            ),
        },
{
}

/// From the wire to those who wait for it: a JSON object that says `publish` reaches the listeners
/// on its `topic` with its `msg`, one that says `service_response` reaches the caller under its
/// `id` with its `values`, and one that says `call_service` runs the callback of its `service` on
/// its `args`.
pub proof fn objects_on_the_wire_reach_who_waits_for_them(
    client: ClientView,
    text: String,
    members: Map<Seq<char>, Json>,
    name: Seq<char>,
    now: Instant,
)
    requires
        json::parsed_json(text@) == Some(Json::Object(members)),
        members.contains_key("op"@),
    ensures
        ({
            let has = |key: Seq<char>, value: Json|
                members.contains_key(key) && members[key] == value;
            let (after, result) = client.read_handled(Read::Message(Message::Text(text)), now);
            &&& has("op"@, Json::Text("publish"@)) && has("topic"@, Json::Text(name))
                && members.contains_key("msg"@) && client.subscriptions.contains_key(name) ==> {
                &&& after == client
                &&& result == Ok::<DispatchView, ErrorView>(
                    DispatchView::Deliver {
                        handles: client.subscriptions[name].handles,
                        msg: json::json_text(members["msg"@]),
                    },
                )
            }
            &&& has("op"@, Json::Text("service_response"@)) && has("id"@, Json::Text(name))
                && members.contains_key("values"@) && client.service_calls.contains_key(name) ==> {
                &&& !after.service_calls.contains_key(name)
                &&& result == Ok::<DispatchView, ErrorView>(
                    DispatchView::Respond {
                        call: client.service_calls[name],
                        values: members["values"@],
                    },
                )
            }
            &&& has("op"@, Json::Text("call_service"@)) && has("service"@, Json::Text(name))
                && members.contains_key("args"@) && client.services.contains_key(name) ==> {
                &&& after == client
                &&& result matches Ok(DispatchView::Serve { callback, service, request, .. })
                &&& callback == client.services[name].callback
                &&& service == name
                &&& request == json::json_text(members["args"@])
            }
        }),
{
    message::op_names_are_read_back(Ops::Publish);
    message::op_names_are_read_back(Ops::ServiceResponse);
    message::op_names_are_read_back(Ops::CallService);
}

/// Giving up the calls leaves none of them and touches nothing else. A new socket starts its pings
/// and pongs from now besides.
pub proof fn new_socket_starts_afresh(client: ClientView, now: Instant)
    ensures
        client.without_calls() == (ClientView { service_calls: Map::empty(), ..client }),
        client.reconnected(now) == (ClientView {
            service_calls: Map::empty(),
            heartbeat: Heartbeat { last_ping_sent: now, last_pong_received: now },
            ..client
        }),
{
}

/// What a new socket is told are exactly the topics with a publisher, the topics that were
/// subscribed to and the services, each with the type on record for it, each once, in this order.
pub proof fn new_socket_is_told_exactly_what_is_on_record(
    client: ClientView,
    frames: Seq<FrameView>,
    name: Seq<char>,
    kind: Seq<char>,
)
    requires
        client::restores(frames, client),
    ensures
        frames.contains(FrameView::Advertise { topic: name, topic_type: kind })
            <==> client.publishers.contains_key(name) && client.publishers[name] == kind,
        frames.contains(FrameView::Subscribe { topic: name, topic_type: kind })
            <==> client.subscriptions.contains_key(name) && client.subscriptions[name].topic_type
            == kind,
        frames.contains(FrameView::AdvertiseService { service: name, service_type: kind })
            <==> client.services.contains_key(name) && client.services[name].service_type == kind,
        forall|i: int|
            0 <= i < frames.len() ==> (#[trigger] frames[i] is Advertise || frames[i] is Subscribe
                || frames[i] is AdvertiseService),
        forall|i: int, j: int|
            0 <= i < j < frames.len() ==> {
                &&& #[trigger] frames[i] != #[trigger] frames[j]
                &&& frames[j] is Advertise ==> frames[i] is Advertise
                &&& frames[i] is AdvertiseService ==> frames[j] is AdvertiseService
            },
{
    assert(client::restoring(client, FrameView::Advertise { topic: name, topic_type: kind })
        == frames.contains(FrameView::Advertise { topic: name, topic_type: kind }));
    assert(client::restoring(client, FrameView::Subscribe { topic: name, topic_type: kind })
        == frames.contains(FrameView::Subscribe { topic: name, topic_type: kind }));
    assert(client::restoring(
        client,
        FrameView::AdvertiseService { service: name, service_type: kind },
    ) == frames.contains(FrameView::AdvertiseService { service: name, service_type: kind }));
    assert forall|i: int| 0 <= i < frames.len() implies (#[trigger] frames[i] is Advertise
        || frames[i] is Subscribe || frames[i] is AdvertiseService) by {
        assert(frames.contains(frames[i]));
        assert(client::restoring(client, frames[i]));
    }
}

/// A list of frames says what each of them says, in the same order.
pub proof fn lists_say_what_their_frames_say(frames: Seq<Frame>, i: int)
    ensures
        client::frame_views(frames).len() == frames.len(),
        0 <= i < frames.len() ==> client::frame_views(frames)[i] == frames[i]@,
{
}

/// Those who are woken are the callers in flight, one for each call: there is a list of the ids in
/// flight, each once, such that the caller under each of them is woken in its turn.
pub proof fn each_call_wakes_its_caller(woken: Seq<u64>, calls: Map<Seq<char>, u64>)
    requires
        client::wakes(woken, calls),
    ensures
        exists|ids: Seq<Seq<char>>|
            {
                &&& #[trigger] ids.no_duplicates()
                &&& forall|id: Seq<char>| #[trigger] ids.contains(id) <==> calls.contains_key(id)
                &&& woken.len() == ids.len()
                &&& forall|i: int| 0 <= i < ids.len() ==> #[trigger] woken[i] == calls[ids[i]]
            },
{
    let ids = choose|ids: Seq<Seq<char>>|
        {
            &&& ids.no_duplicates()
            &&& forall|id: Seq<char>| #[trigger] ids.contains(id) <==> calls.contains_key(id)
            &&& woken == #[trigger] client::callers(ids, calls)
        };
    assert(ids.no_duplicates());
}

/// The loop checks the pings and pongs after each spin that did not fail, and spins after each
/// check that did not. A failure of either is followed by a reconnect, which is tried until it
/// succeeds. Then the loop spins again.
pub proof fn loop_goes_on(error: Error)
    ensures
        spin::spin_next(SpinEvent::Spun(Waited::Done(Ok(())))) == SpinNext::CheckHeartbeat,
        spin::spin_next(SpinEvent::Spun(Waited::Elapsed)) == SpinNext::CheckHeartbeat,
        spin::spin_next(SpinEvent::Spun(Waited::Done(Err(error)))) == SpinNext::Reconnect,
        spin::spin_next(SpinEvent::HeartbeatChecked(Ok(()))) == SpinNext::Spin,
        spin::spin_next(SpinEvent::HeartbeatChecked(Err(error))) == SpinNext::Reconnect,
        spin::spin_next(SpinEvent::Reconnected(Ok(()))) == SpinNext::Spin,
        spin::spin_next(SpinEvent::Reconnected(Err(error))) == SpinNext::Retry,
{
}

/// A failed spin or check marks the client as disconnected and gives up its calls. A reconnect that
/// succeeded takes the mark away. Nothing else that the loop sees changes the client.
pub proof fn loop_marks_the_connection(handle: HandleView, error: Error)
    ensures
        ({
            let lost = HandleView {
                client: ClientView { service_calls: Map::empty(), ..handle.client },
                connected: false,
            };
            &&& handle.spun(SpinEvent::Spun(Waited::Done(Err(error)))) == lost
            &&& handle.spun(SpinEvent::HeartbeatChecked(Err(error))) == lost
        }),
        handle.spun(SpinEvent::Reconnected(Ok(()))) == (HandleView {
            client: handle.client,
            connected: true,
        }),
        handle.spun(SpinEvent::Spun(Waited::Done(Ok(())))) == handle,
        handle.spun(SpinEvent::Spun(Waited::Elapsed)) == handle,
        handle.spun(SpinEvent::HeartbeatChecked(Ok(()))) == handle,
        handle.spun(SpinEvent::Reconnected(Err(error))) == handle,
{
}

/// The actions of the loop are told apart.
pub proof fn actions_are_told_apart(action: SpinAction)
    ensures
        action.next() is Spin <==> action is Spin,
        action.next() is CheckHeartbeat <==> action is CheckHeartbeat,
        action.next() is Reconnect <==> action is Reconnect,
        action.next() is Retry <==> action is Retry,
{
}

/// A spin may take ten milliseconds, and attempts to connect are two hundred apart.
pub proof fn loop_keeps_its_times()
    ensures
        spin::SPIN_DURATION == 10 * 1_000_000,
        spin::RETRY_DELAY == 200 * 1_000_000,
{
}

} // verus!
