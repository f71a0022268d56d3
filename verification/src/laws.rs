//! What holds of a client over several operations.
use crate::client::{self, ClientView, DispatchView, Read, Removal};
use crate::error::{Error, ErrorView, Waited};
use crate::frame::FrameView;
use crate::handle::HandleView;
use crate::heartbeat::PONG_TIMEOUT;
use crate::json::Json;
use crate::message::{Ignored, IncomingView, Message, Ops};
use crate::spin::{self, SpinEvent};
use crate::time::{Duration, Instant};
use vstd::prelude::*;

verus! {

/// While the connection is down every operation that needs it is refused as disconnected, and
/// changes nothing. While it is up none is refused for that reason.
pub proof fn refused_exactly_while_disconnected(
    handle: HandleView,
    name: Seq<char>,
    topic_type: Seq<char>,
    payload: Json,
    id: Seq<char>,
    number: u64,
)
    ensures
        !handle.connected ==> {
            &&& handle.subscribe(name, topic_type) == (
                handle,
                Err::<Option<FrameView>, ErrorView>(ErrorView::Disconnected),
            )
            &&& handle.publish(name, payload) == Err::<FrameView, ErrorView>(
                ErrorView::Disconnected,
            )
            &&& handle.advertise(name, topic_type) == (
                handle,
                Err::<FrameView, ErrorView>(ErrorView::Disconnected),
            )
            &&& handle.advertise_service(name, topic_type, number) == (
                handle,
                Err::<FrameView, ErrorView>(ErrorView::Disconnected),
            )
            &&& handle.call_service(name, payload, id, number).0 == handle
            &&& handle.call_service(name, payload, id, number).1 matches Err(
                ErrorView::Disconnected,
            )
        },
        handle.connected ==> {
            &&& !(handle.subscribe(name, topic_type).1 matches Err(ErrorView::Disconnected))
            &&& !(handle.publish(name, payload) matches Err(ErrorView::Disconnected))
            &&& !(handle.advertise(name, topic_type).1 matches Err(ErrorView::Disconnected))
            &&& !(handle.advertise_service(name, topic_type, number).1 matches Err(
                ErrorView::Disconnected,
            ))
            &&& !(handle.call_service(name, payload, id, number).1 matches Err(
                ErrorView::Disconnected,
            ))
        },
{
}

/// A topic has one publisher: advertising it again is an error that changes nothing, whatever the
/// type, until it is unadvertised. Then it can be advertised again.
pub proof fn topic_has_one_publisher(
    handle: HandleView,
    topic: Seq<char>,
    first_type: Seq<char>,
    second_type: Seq<char>,
)
    requires
        handle.connected,
        !handle.client.publishers.contains_key(topic),
    ensures
        ({
            let (advertised, first) = handle.advertise(topic, first_type);
            let (after, second) = advertised.advertise(topic, second_type);
            let freed = advertised.unadvertise(topic);
            &&& first == Ok::<FrameView, ErrorView>(
                FrameView::Advertise { topic, topic_type: first_type },
            )
            &&& second matches Err(ErrorView::Unexpected(_))
            &&& after == advertised
            &&& freed == handle
            &&& freed.advertise(topic, second_type).1 == Ok::<FrameView, ErrorView>(
                FrameView::Advertise { topic, topic_type: second_type },
            )
        }),
{
    let advertised = handle.advertise(topic, first_type).0;
    assert(advertised.unadvertise(topic).client.publishers =~= handle.client.publishers);
}

/// A service has one server: advertising it again is an error that changes nothing, whatever the
/// type, until it is unadvertised. Then it can be advertised again.
pub proof fn service_has_one_server(
    handle: HandleView,
    service: Seq<char>,
    first_type: Seq<char>,
    first: u64,
    second_type: Seq<char>,
    second: u64,
)
    requires
        handle.connected,
        !handle.client.services.contains_key(service),
    ensures
        ({
            let (advertised, result) = handle.advertise_service(service, first_type, first);
            let (after, again) = advertised.advertise_service(service, second_type, second);
            let freed = advertised.unadvertise_service(service);
            &&& result == Ok::<FrameView, ErrorView>(
                FrameView::AdvertiseService { service, service_type: first_type },
            )
            &&& again matches Err(ErrorView::Unexpected(_))
            &&& after == advertised
            &&& freed == handle
            &&& freed.advertise_service(service, second_type, second).1 == Ok::<
                FrameView,
                ErrorView,
            >(FrameView::AdvertiseService { service, service_type: second_type })
        }),
{
    let advertised = handle.advertise_service(service, first_type, first).0;
    assert(advertised.unadvertise_service(service).client.services =~= handle.client.services);
}

/// A call to an advertised service that carries arguments runs the callback that was advertised
/// with it, and once the service is unadvertised it is ignored.
pub proof fn advertised_service_is_served(
    handle: HandleView,
    service: Seq<char>,
    service_type: Seq<char>,
    callback: u64,
    data: IncomingView,
)
    requires
        handle.connected,
        !handle.client.services.contains_key(service),
        data.op == Ops::CallService,
        data.service == Some(service),
        data.args is Some,
    ensures
        ({
            let advertised = handle.advertise_service(service, service_type, callback).0;
            &&& advertised.client.incoming_handled(data) == (
                advertised.client,
                DispatchView::Serve { callback, service, id: data.id, request: data.args->0 },
            )
            &&& advertised.unadvertise_service(service).client.incoming_handled(data).1
                == DispatchView::Ignored(Ignored::NotAdvertised)
        }),
{
}

/// The response to a call reaches the caller that made it, and reaches it once: the same response
/// again is ignored. No other call is touched.
pub proof fn response_reaches_its_caller_once(
    handle: HandleView,
    service: Seq<char>,
    args: Json,
    id: Seq<char>,
    call: u64,
    data: IncomingView,
)
    requires
        handle.connected,
        data.op == Ops::ServiceResponse,
        data.id == Some(id),
    ensures
        ({
            let called = handle.call_service(service, args, id, call).0;
            let (answered, dispatch) = called.client.incoming_handled(data);
            &&& dispatch == DispatchView::Respond { call, values: data.values }
            &&& answered == handle.client.call_dropped(id)
            &&& answered.incoming_handled(data) == (
                answered,
                DispatchView::Ignored(Ignored::UnknownCall),
            )
        }),
{
    let called = handle.call_service(service, args, id, call).0;
    let answered = called.client.incoming_handled(data).0;
    assert(answered.service_calls =~= handle.client.service_calls.remove(id));
}

/// A call that timed out, or whose request was not sent, is no longer tracked, and a response that
/// comes late is ignored and changes nothing.
pub proof fn late_response_is_ignored(
    handle: HandleView,
    id: Seq<char>,
    unsent: Waited<Result<(), Error>>,
    data: IncomingView,
)
    requires
        !(unsent matches Waited::Done(Ok(_))),
        data.op == Ops::ServiceResponse,
        data.id == Some(id),
    ensures
        ({
            let timed_out = handle.call_replied(id, Waited::Elapsed).0.client;
            let not_sent = handle.call_sent(id, unsent).0.client;
            &&& handle.call_replied(id, Waited::Elapsed).1 matches Err(ErrorView::Timeout(_))
            &&& handle.call_sent(id, unsent).1 is Err
            &&& !timed_out.service_calls.contains_key(id)
            &&& timed_out.incoming_handled(data) == (
                timed_out,
                DispatchView::Ignored(Ignored::UnknownCall),
            )
            &&& !not_sent.service_calls.contains_key(id)
            &&& not_sent.incoming_handled(data) == (
                not_sent,
                DispatchView::Ignored(Ignored::UnknownCall),
            )
        }),
{
}

/// When the connection is lost, every caller in flight is woken and told that the connection was
/// reset, the client counts as disconnected, and no response is delivered afterwards.
pub proof fn lost_connection_wakes_every_call(
    handle: HandleView,
    event: SpinEvent,
    woken: Seq<u64>,
    id: Seq<char>,
    data: IncomingView,
)
    requires
        spin::lost(event),
        client::wakes(woken, handle.client.service_calls),
        data.op == Ops::ServiceResponse,
    ensures
        handle.client.service_calls.contains_key(id) ==> woken.contains(
            handle.client.service_calls[id],
        ),
        forall|caller: u64| #[trigger]
            woken.contains(caller) ==> handle.client.service_calls.contains_value(caller),
        ({
            let down = handle.spun(event);
            &&& !down.connected
            &&& down.call_replied(id, Waited::Done(None)).1 matches Err(ErrorView::Unexpected(_))
            &&& down.client.incoming_handled(data).0 == down.client
            &&& down.client.incoming_handled(data).1 is Ignored
        }),
{
    client::exactly_the_callers_are_woken(woken, handle.client.service_calls);
}

/// Two subscribers to one topic share one subscription, whatever types they subscribe with, and
/// each message on the topic goes to both.
pub proof fn both_subscribers_receive(
    handle: HandleView,
    topic: Seq<char>,
    first_type: Seq<char>,
    first: u128,
    second_type: Seq<char>,
    second: u128,
    data: IncomingView,
)
    requires
        data.op == Ops::Publish,
        data.topic == Some(topic),
        data.msg is Some,
    ensures
        ({
            let one = handle.subscribed(topic, first_type, first, Waited::Done(Ok(()))).0;
            let both = one.subscribed(topic, second_type, second, Waited::Done(Ok(()))).0;
            &&& both.client.subscriptions.dom() == handle.client.subscriptions.dom().insert(topic)
            &&& both.client.subscriptions[topic].topic_type
                == one.client.subscriptions[topic].topic_type
            &&& both.client.incoming_handled(data).1 matches DispatchView::Deliver { handles, msg }
            &&& handles.contains(first)
            &&& handles.contains(second)
            &&& msg == data.msg->0
        }),
{
    let one = handle.subscribed(topic, first_type, first, Waited::Done(Ok(()))).0;
    let both = one.subscribed(topic, second_type, second, Waited::Done(Ok(()))).0;
    assert(both.client.subscriptions.dom() =~= handle.client.subscriptions.dom().insert(topic));
}

/// All subscribers to a topic share one subscription to rosbridge. The first one is given a request
/// to send. Once it listens, another one is given none, whatever type it subscribes with. One that
/// comes after the last has left, or after a request that was not sent, is given one again.
pub proof fn subscribers_share_one_request(
    handle: HandleView,
    topic: Seq<char>,
    first_type: Seq<char>,
    first: u128,
    second_type: Seq<char>,
    unsent: Waited<Result<(), Error>>,
)
    requires
        handle.connected,
        !handle.client.listened(topic),
        !(unsent matches Waited::Done(Ok(_))),
    ensures
        ({
            let (opened, request) = handle.subscribe(topic, first_type);
            let listening = opened.subscribed(topic, first_type, first, Waited::Done(Ok(()))).0;
            let (left, removal) = listening.unsubscribe(topic, first);
            let failed = opened.subscribed(topic, first_type, first, unsent).0;
            let again = Ok::<Option<FrameView>, ErrorView>(
                Some(FrameView::Subscribe { topic, topic_type: second_type }),
            );
            &&& request == Ok::<Option<FrameView>, ErrorView>(
                Some(FrameView::Subscribe { topic, topic_type: first_type }),
            )
            &&& listening.subscribe(topic, second_type) == (
                listening,
                Ok::<Option<FrameView>, ErrorView>(None),
            )
            &&& removal == Removal::Last
            &&& left.subscribe(topic, second_type).1 == again
            &&& failed.subscribe(topic, second_type).1 == again
        }),
{
    let opened = handle.subscribe(topic, first_type).0;
    let listening = opened.subscribed(topic, first_type, first, Waited::Done(Ok(()))).0;
    let handles = listening.client.subscriptions[topic].handles;
    assert(opened.client.subscriptions[topic].handles =~= Set::<u128>::empty());
    assert(handles.contains(first));
    assert(handles.remove(first) =~= Set::<u128>::empty());
}

/// An operation whose deadline has passed fails with a timeout, whichever it is: subscribing,
/// publishing, advertising a topic or a service, and sending a call or waiting for its response.
/// What finished in time is not failed for that reason.
pub proof fn every_operation_keeps_its_deadline(
    handle: HandleView,
    topic: Seq<char>,
    topic_type: Seq<char>,
    subscriber: u128,
    id: Seq<char>,
    values: serde_json::Value,
)
    ensures
        handle.sent(Waited::Elapsed) matches Err(ErrorView::Timeout(_)),
        handle.sent(Waited::Done(Ok(()))) is Ok,
        handle.subscribed(topic, topic_type, subscriber, Waited::Elapsed).0 == handle,
        handle.subscribed(topic, topic_type, subscriber, Waited::Elapsed).1 matches Err(
            ErrorView::Timeout(_),
        ),
        handle.subscribed(topic, topic_type, subscriber, Waited::Done(Ok(()))).1 is Ok,
        handle.call_sent(id, Waited::Elapsed).1 matches Err(ErrorView::Timeout(_)),
        handle.call_sent(id, Waited::Done(Ok(()))).1 == Ok::<Option<Duration>, ErrorView>(
            handle.client.opts.deadline(),
        ),
        handle.call_replied(id, Waited::Elapsed).1 matches Err(ErrorView::Timeout(_)),
        handle.call_replied(id, Waited::Done(Some(values))).1 is Ok,
{
}

/// A subscriber that has left receives nothing more, all others on its topic still do, and no
/// other topic is touched.
pub proof fn only_the_subscriber_that_left_is_gone(
    handle: HandleView,
    topic: Seq<char>,
    id: u128,
    data: IncomingView,
)
    requires
        handle.client.subscriptions.contains_key(topic),
        data.op == Ops::Publish,
        data.topic == Some(topic),
        data.msg is Some,
    ensures
        ({
            let (after, removal) = handle.unsubscribe(topic, id);
            let listening = handle.client.subscriptions[topic].handles;
            &&& after.client.incoming_handled(data).1 == DispatchView::Deliver {
                handles: listening.remove(id),
                msg: data.msg->0,
            }
            &&& removal == Removal::Last <==> listening.contains(id) && listening.remove(id)
                == Set::<u128>::empty()
            &&& after.client.subscriptions.remove(topic) == handle.client.subscriptions.remove(
                topic,
            )
        }),
{
    let (after, removal) = handle.unsubscribe(topic, id);
    let listening = handle.client.subscriptions[topic].handles;
    if !listening.contains(id) {
        assert(listening.remove(id) =~= listening);
    }
    assert(after.client.subscriptions.remove(topic) =~= handle.client.subscriptions.remove(topic));
}

/// A message from the server is an error exactly if it is a close. Whatever else it holds, it
/// leaves what the client has advertised and subscribed to alone.
pub proof fn only_a_close_is_an_error(client: ClientView, msg: Message, now: Instant)
    ensures
        client.message_handled(msg, now).1 is Err <==> msg is Close,
        ({
            let after = client.message_handled(msg, now).0;
            &&& after.publishers == client.publishers
            &&& after.subscriptions == client.subscriptions
            &&& after.services == client.services
            &&& after.service_calls.submap_of(client.service_calls)
            &&& msg is Close ==> after == client
        }),
{
}

/// A pong, and likewise a new socket, keeps the connection from being given up for
/// [`PONG_TIMEOUT`].
pub proof fn pong_renews_the_connection(
    client: ClientView,
    payload: Vec<u8>,
    now: Instant,
    later: Instant,
    writer_free: bool,
)
    requires
        later.since(now) <= PONG_TIMEOUT,
    ensures
        client.message_handled(Message::Pong(payload), now).0.heartbeat.checked(
            later,
            writer_free,
        ).1 is Ok,
        client.reconnected(now).heartbeat.checked(later, writer_free).1 is Ok,
{
}

/// Reconnecting leaves no call in flight: exactly the callers that were are woken, no response is
/// delivered to any of them afterwards, and all but the calls and the heartbeat is as before. That
/// the calls were given up before the new socket was sought makes no difference.
pub proof fn reconnecting_leaves_no_call(
    client: ClientView,
    woken: Seq<u64>,
    now: Instant,
    data: IncomingView,
)
    requires
        client::wakes(woken, client.service_calls),
        data.op == Ops::ServiceResponse,
    ensures
        forall|id: Seq<char>| #[trigger]
            client.service_calls.contains_key(id) ==> woken.contains(client.service_calls[id]),
        forall|caller: u64| #[trigger]
            woken.contains(caller) ==> client.service_calls.contains_value(caller),
        ({
            let after = client.reconnected(now);
            &&& after.service_calls == Map::<Seq<char>, u64>::empty()
            &&& after.incoming_handled(data).0 == after
            &&& after.incoming_handled(data).1 is Ignored
            &&& after == client.without_calls().reconnected(now)
            &&& after == ClientView {
                service_calls: after.service_calls,
                heartbeat: after.heartbeat,
                ..client
            }
        }),
{
    client::exactly_the_callers_are_woken(woken, client.service_calls);
}

/// Losing and restoring the connection keeps all that was advertised and subscribed to, so that a
/// new socket is told the same whenever it comes: every publisher, every subscription and every
/// service.
pub proof fn registrations_survive_the_connection(
    handle: HandleView,
    events: Seq<SpinEvent>,
    now: Instant,
    frames: Seq<FrameView>,
)
    ensures
        ({
            let after = handle.spun_all(events).client.reconnected(now);
            &&& after.publishers == handle.client.publishers
            &&& after.subscriptions == handle.client.subscriptions
            &&& after.services == handle.client.services
            &&& client::restores(frames, after) <==> client::restores(frames, handle.client)
        }),
    decreases events.len(),
{
    if events.len() > 0 {
        registrations_survive_the_connection(handle, events.drop_last(), now, frames);
    }
    let after = handle.spun_all(events).client.reconnected(now);
    assert forall|frame: FrameView| #[trigger]
        client::restoring(after, frame) == client::restoring(handle.client, frame) by {}
    if client::restores(frames, after) {
        assert(client::restores(frames, handle.client));
    }
    if client::restores(frames, handle.client) {
        assert(client::restores(frames, after));
    }
}

/// Whether the connection was lost at some event and no attempt to reconnect has succeeded since.
pub open spec fn still_down(events: Seq<SpinEvent>) -> bool {
    exists|i: int|
        {
            &&& 0 <= i < events.len()
            &&& spin::lost(#[trigger] events[i])
            &&& forall|j: int|
                i < j < events.len() ==> !(#[trigger] events[j] matches SpinEvent::Reconnected(
                    Ok(_),
                ))
        }
}

/// A client that starts out connected counts as disconnected exactly from the loss of its
/// connection until a reconnect succeeds.
pub proof fn connected_unless_still_down(handle: HandleView, events: Seq<SpinEvent>)
    requires
        handle.connected,
    ensures
        handle.spun_all(events).connected == !still_down(events),
    decreases events.len(),
{
    if events.len() > 0 {
        let earlier = events.drop_last();
        let last = events.last();
        connected_unless_still_down(handle, earlier);
        if spin::lost(last) {
            assert(spin::lost(events[events.len() - 1]));
            assert(still_down(events));
        } else {
            if last matches SpinEvent::Reconnected(Ok(_)) {
                assert(events[events.len() - 1] matches SpinEvent::Reconnected(Ok(_)));
            } else if still_down(earlier) {
                let i = choose|i: int|
                    {
                        &&& 0 <= i < earlier.len()
                        &&& spin::lost(#[trigger] earlier[i])
                        &&& forall|j: int|
                            i < j < earlier.len() ==> !(
                            #[trigger] earlier[j] matches SpinEvent::Reconnected(Ok(_)))
                    };
                assert(spin::lost(events[i]));
                assert forall|j: int| i < j < events.len() implies !(
                #[trigger] events[j] matches SpinEvent::Reconnected(Ok(_))) by {
                    if j < earlier.len() {
                        assert(!(earlier[j] matches SpinEvent::Reconnected(Ok(_))));
                    }
                }
            } else if still_down(events) {
                let i = choose|i: int|
                    {
                        &&& 0 <= i < events.len()
                        &&& spin::lost(#[trigger] events[i])
                        &&& forall|j: int|
                            i < j < events.len() ==> !(
                            #[trigger] events[j] matches SpinEvent::Reconnected(Ok(_)))
                    };
                assert(i < earlier.len());
                assert(spin::lost(earlier[i]));
                assert forall|j: int| i < j < earlier.len() implies !(
                #[trigger] earlier[j] matches SpinEvent::Reconnected(Ok(_))) by {
                    assert(!(events[j] matches SpinEvent::Reconnected(Ok(_))));
                }
            }
        }
    }
}

} // verus!
