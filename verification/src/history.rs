//! What holds of a client over any history of operations.
use crate::client::{self, ClientView, Read};
use crate::error::{Error, ErrorView, Waited};
use crate::frame::FrameView;
use crate::handle::HandleView;
use crate::json::Json;
use crate::message::{self, Message, Ops};
use crate::spin::SpinEvent;
use crate::time::Instant;
use vstd::prelude::*;

verus! {

/// One thing that happens to a client.
#[allow(inconsistent_fields)]
pub enum Step {
    Subscribe { topic: Seq<char>, topic_type: Seq<char> },
    Subscribed {
        topic: Seq<char>,
        topic_type: Seq<char>,
        subscriber: u128,
        sent: Waited<Result<(), Error>>,
    },
    Unsubscribe { topic: Seq<char>, subscriber: u128 },
    Sent { sent: Waited<Result<(), Error>> },
    Publish { topic: Seq<char>, msg: Json },
    Advertise { topic: Seq<char>, topic_type: Seq<char> },
    Unadvertise { topic: Seq<char> },
    AdvertiseService { service: Seq<char>, service_type: Seq<char>, callback: u64 },
    UnadvertiseService { service: Seq<char> },
    CallService { service: Seq<char>, args: Json, id: Seq<char>, call: u64 },
    CallSent { id: Seq<char>, sent: Waited<Result<(), Error>> },
    CallReplied { id: Seq<char>, reply: Waited<Option<serde_json::Value>> },
    SpinOnce { read: Read, now: Instant },
    CheckHeartbeat { now: Instant, writer_free: bool },
    StubbornSpin { event: SpinEvent },
    AbandonCalls,
    Reconnect { now: Instant },
}

impl HandleView {
    /// The handle after a step.
    pub open spec fn stepped(self, step: Step) -> HandleView {
        match step {
            Step::Subscribe { topic, topic_type } => self.subscribe(topic, topic_type).0,
            Step::Subscribed { topic, topic_type, subscriber, sent } => self.subscribed(
                topic,
                topic_type,
                subscriber,
                sent,
            ).0,
            Step::Unsubscribe { topic, subscriber } => self.unsubscribe(topic, subscriber).0,
            Step::Sent { .. } => self,
            Step::Publish { .. } => self,
            Step::Advertise { topic, topic_type } => self.advertise(topic, topic_type).0,
            Step::Unadvertise { topic } => self.unadvertise(topic),
            Step::AdvertiseService { service, service_type, callback } => self.advertise_service(
                service,
                service_type,
                callback,
            ).0,
            Step::UnadvertiseService { service } => self.unadvertise_service(service),
            Step::CallService { service, args, id, call } => self.call_service(
                service,
                args,
                id,
                call,
            ).0,
            Step::CallSent { id, sent } => self.call_sent(id, sent).0,
            Step::CallReplied { id, reply } => self.call_replied(id, reply).0,
            Step::SpinOnce { read, now } => HandleView {
                client: self.client.read_handled(read, now).0,
                ..self
            },
            Step::CheckHeartbeat { now, writer_free } => HandleView {
                client: ClientView {
                    heartbeat: self.client.heartbeat.checked(now, writer_free).0,
                    ..self.client
                },
                ..self
            },
            Step::StubbornSpin { event } => self.spun(event),
            Step::AbandonCalls => HandleView { client: self.client.without_calls(), ..self },
            Step::Reconnect { now } => HandleView {
                client: self.client.reconnected(now),
                ..self
            },
        }
    }

    /// The handle after these steps one after the other.
    pub open spec fn stepped_all(self, steps: Seq<Step>) -> HandleView
        decreases steps.len(),
    {
        if steps.len() == 0 {
            self
        } else {
            self.stepped_all(steps.drop_last()).stepped(steps.last())
        }
    }

    /// Whether a step records a call under `id`.
    pub open spec fn calls(self, step: Step, id: Seq<char>) -> bool {
        match step {
            Step::CallService { id: called, .. } => self.connected && called == id,
            _ => false,
        }
    }

    /// Whether a step delivers a response to the caller under `id`.
    pub open spec fn answers(self, step: Step, id: Seq<char>) -> bool {
        match step {
            Step::SpinOnce { read: Read::Message(Message::Text(text)), .. } => {
                &&& self.client.text_handled(text@).1 is Respond
                &&& message::incoming(text@)->Ok_0.id == Some(id)
            },
            _ => false,
        }
    }

    /// How many of the steps record a call under `id`.
    pub open spec fn count_calls(self, steps: Seq<Step>, id: Seq<char>) -> nat
        decreases steps.len(),
    {
        if steps.len() == 0 {
            0
        } else {
            self.count_calls(steps.drop_last(), id) + if self.stepped_all(
                steps.drop_last(),
            ).calls(steps.last(), id) {
                1nat
            } else {
                0nat
            }
        }
    }

    /// How many of the steps deliver a response to the caller under `id`.
    pub open spec fn count_answers(self, steps: Seq<Step>, id: Seq<char>) -> nat
        decreases steps.len(),
    {
        if steps.len() == 0 {
            0
        } else {
            self.count_answers(steps.drop_last(), id) + if self.stepped_all(
                steps.drop_last(),
            ).answers(steps.last(), id) {
                1nat
            } else {
                0nat
            }
        }
    }

    /// One if a call under `id` is in flight.
    pub open spec fn in_flight(self, id: Seq<char>) -> nat {
        if self.client.service_calls.contains_key(id) {
            1
        } else {
            0
        }
    }
}

proof fn lemma_step_balances_calls(handle: HandleView, step: Step, id: Seq<char>)
    ensures
        handle.stepped(step).in_flight(id) + (if handle.answers(step, id) {
            1nat
        } else {
            0nat
        }) <= handle.in_flight(id) + (if handle.calls(step, id) {
            1nat
        } else {
            0nat
        }),
{
    match step {
        Step::SpinOnce { read: Read::Message(Message::Text(text)), .. } => {
            match message::incoming(text@) {
                Ok(data) => {
                    if data.op == Ops::ServiceResponse && data.id is Some {
                        let answered = data.id->0;
                        assert(handle.client.service_calls.remove(answered).contains_key(id)
                            <==> handle.client.service_calls.contains_key(id) && id != answered);
                    }
                },
                Err(_) => {},
            }
        },
        _ => {},
    }
}

/// Over any history, each call gets at most one response: no more are delivered under an id than
/// calls were recorded under it, those still in flight included.
pub proof fn each_call_is_answered_at_most_once(
    handle: HandleView,
    steps: Seq<Step>,
    id: Seq<char>,
)
    ensures
        handle.count_answers(steps, id) + handle.stepped_all(steps).in_flight(id)
            <= handle.count_calls(steps, id) + handle.in_flight(id),
    decreases steps.len(),
{
    if steps.len() > 0 {
        each_call_is_answered_at_most_once(handle, steps.drop_last(), id);
        lemma_step_balances_calls(handle.stepped_all(steps.drop_last()), steps.last(), id);
    }
}

/// Over any history, a call in flight keeps its caller, unless another call is made under the same
/// id.
pub proof fn call_keeps_its_caller(handle: HandleView, steps: Seq<Step>, id: Seq<char>)
    requires
        handle.client.service_calls.contains_key(id),
        handle.count_calls(steps, id) == 0,
    ensures
        handle.stepped_all(steps).client.service_calls.contains_key(id)
            ==> handle.stepped_all(steps).client.service_calls[id]
            == handle.client.service_calls[id],
    decreases steps.len(),
{
    if steps.len() > 0 {
        let before = handle.stepped_all(steps.drop_last());
        call_keeps_its_caller(handle, steps.drop_last(), id);
        lemma_step_balances_calls(before, steps.last(), id);
        assert(!before.calls(steps.last(), id));
    }
}

/// Over any history, a client keeps its label and its options.
pub proof fn settings_never_change(handle: HandleView, steps: Seq<Step>)
    ensures
        handle.stepped_all(steps).client.label == handle.client.label,
        handle.stepped_all(steps).client.opts == handle.client.opts,
    decreases steps.len(),
{
    if steps.len() > 0 {
        settings_never_change(handle, steps.drop_last());
    }
}

/// Over any history, a topic that was subscribed to stays known, with the type that it was first
/// subscribed with.
pub proof fn subscriptions_keep_their_first_type(
    handle: HandleView,
    steps: Seq<Step>,
    topic: Seq<char>,
)
    requires
        handle.client.subscriptions.contains_key(topic),
    ensures
        handle.stepped_all(steps).client.subscriptions.contains_key(topic),
        handle.stepped_all(steps).client.subscriptions[topic].topic_type
            == handle.client.subscriptions[topic].topic_type,
    decreases steps.len(),
{
    if steps.len() > 0 {
        subscriptions_keep_their_first_type(handle, steps.drop_last(), topic);
    }
}

/// Over any history, a subscriber listens until it unsubscribes. All that time no other subscriber
/// to its topic is given a request to send, and every new socket is told of the topic.
pub proof fn subscriber_listens_until_it_leaves(
    handle: HandleView,
    steps: Seq<Step>,
    topic: Seq<char>,
    subscriber: u128,
    other_type: Seq<char>,
    frames: Seq<FrameView>,
)
    requires
        handle.client.subscriptions.contains_key(topic),
        handle.client.subscriptions[topic].handles.contains(subscriber),
        forall|i: int|
            0 <= i < steps.len() ==> #[trigger] steps[i] != (Step::Unsubscribe {
                topic,
                subscriber,
            }),
    ensures
        handle.stepped_all(steps).client.subscriptions.contains_key(topic),
        handle.stepped_all(steps).client.subscriptions[topic].handles.contains(subscriber),
        handle.stepped_all(steps).connected ==> handle.stepped_all(steps).subscribe(
            topic,
            other_type,
        ).1 == Ok::<Option<FrameView>, ErrorView>(None),
        client::restores(frames, handle.stepped_all(steps).client) ==> frames.contains(
            FrameView::Subscribe {
                topic,
                topic_type: handle.client.subscriptions[topic].topic_type,
            },
        ),
    decreases steps.len(),
{
    if steps.len() > 0 {
        let earlier = steps.drop_last();
        assert forall|i: int| 0 <= i < earlier.len() implies #[trigger] earlier[i] != (
        Step::Unsubscribe { topic, subscriber }) by {
            assert(steps[i] == earlier[i]);
        }
        subscriber_listens_until_it_leaves(handle, earlier, topic, subscriber, other_type, frames);
        assert(steps[steps.len() - 1] != (Step::Unsubscribe { topic, subscriber }));
    }
    subscriptions_keep_their_first_type(handle, steps, topic);
    let after = handle.stepped_all(steps).client;
    assert(client::restoring(
        after,
        FrameView::Subscribe { topic, topic_type: handle.client.subscriptions[topic].topic_type },
    ));
}

/// Over any history, a topic keeps its publisher and its type until it is unadvertised, and every
/// new socket is told of it.
pub proof fn publisher_stays_until_unadvertised(
    handle: HandleView,
    steps: Seq<Step>,
    topic: Seq<char>,
    frames: Seq<FrameView>,
)
    requires
        handle.client.publishers.contains_key(topic),
        forall|i: int|
            0 <= i < steps.len() ==> #[trigger] steps[i] != (Step::Unadvertise { topic }),
    ensures
        handle.stepped_all(steps).client.publishers.contains_key(topic),
        handle.stepped_all(steps).client.publishers[topic] == handle.client.publishers[topic],
        client::restores(frames, handle.stepped_all(steps).client) ==> frames.contains(
            FrameView::Advertise { topic, topic_type: handle.client.publishers[topic] },
        ),
    decreases steps.len(),
{
    if steps.len() > 0 {
        let earlier = steps.drop_last();
        assert forall|i: int| 0 <= i < earlier.len() implies #[trigger] earlier[i] != (
        Step::Unadvertise { topic }) by {
            assert(steps[i] == earlier[i]);
        }
        publisher_stays_until_unadvertised(handle, earlier, topic, frames);
        assert(steps[steps.len() - 1] != (Step::Unadvertise { topic }));
    }
    assert(client::restoring(
        handle.stepped_all(steps).client,
        FrameView::Advertise { topic, topic_type: handle.client.publishers[topic] },
    ));
}

/// Over any history, a service is active until it is unadvertised: it keeps its type and its
/// callback, and every new socket is told of it.
pub proof fn service_stays_until_unadvertised(
    handle: HandleView,
    steps: Seq<Step>,
    service: Seq<char>,
    frames: Seq<FrameView>,
)
    requires
        handle.client.services.contains_key(service),
        forall|i: int|
            0 <= i < steps.len() ==> #[trigger] steps[i] != (Step::UnadvertiseService { service }),
    ensures
        handle.stepped_all(steps).client.services.contains_key(service),
        handle.stepped_all(steps).client.services[service] == handle.client.services[service],
        client::restores(frames, handle.stepped_all(steps).client) ==> frames.contains(
            FrameView::AdvertiseService {
                service,
                service_type: handle.client.services[service].service_type,
            },
        ),
    decreases steps.len(),
{
    if steps.len() > 0 {
        let earlier = steps.drop_last();
        assert forall|i: int| 0 <= i < earlier.len() implies #[trigger] earlier[i] != (
        Step::UnadvertiseService { service }) by {
            assert(steps[i] == earlier[i]);
        }
        service_stays_until_unadvertised(handle, earlier, service, frames);
        assert(steps[steps.len() - 1] != (Step::UnadvertiseService { service }));
    }
    assert(client::restoring(
        handle.stepped_all(steps).client,
        FrameView::AdvertiseService {
            service,
            service_type: handle.client.services[service].service_type,
        },
    ));
}

} // verus!
