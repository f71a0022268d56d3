//! The state of one connection and how it answers what comes in.
use crate::error::{self, Error, ErrorView};
use crate::frame::{Frame, FrameView};
use crate::heartbeat::{Heartbeat, HeartbeatStep};
use crate::json::{self, Json};
use crate::label::{self, connection_label};
use crate::message::{self, Ignored, Incoming, IncomingView, Message, Ops};
use crate::options::{ClientHandleOptions, OptionsView};
use crate::service::{self, Service, ServiceView};
use crate::subscription::{Subscription, SubscriptionView};
use crate::table::{self, Table};
use crate::time::Instant;
use vstd::prelude::*;
use vstd::string::*;

verus! {

/// What a message from the server asks for.
#[derive(Debug)]
pub enum Dispatch {
    /// Nothing, for this reason.
    Ignored(Ignored),
    /// Nothing more: the pong has been credited.
    Pong,
    /// Hand the JSON text `msg` to each of these subscribers.
    Deliver { handles: Vec<u128>, msg: String },
    /// Hand `values` to the caller that waits under this number.
    Respond { call: u64, values: serde_json::Value },
    /// Run the callback with this number on the JSON text `request`, and send what comes of it as
    /// the response of `service` to call `id`.
    Serve { callback: u64, service: String, id: Option<String>, request: String },
}

/// What a [`Dispatch`] says.
pub enum DispatchView {
    Ignored(Ignored),
    Pong,
    Deliver { handles: Set<u128>, msg: Seq<char> },
    Respond { call: u64, values: Json },
    Serve { callback: u64, service: Seq<char>, id: Option<Seq<char>>, request: Seq<char> },
}

impl View for Dispatch {
    type V = DispatchView;

    open spec fn view(&self) -> DispatchView {
        match *self {
            Dispatch::Ignored(reason) => DispatchView::Ignored(reason),
            Dispatch::Pong => DispatchView::Pong,
            Dispatch::Deliver { handles, msg } => DispatchView::Deliver {
                handles: handles@.to_set(),
                msg: msg@,
            },
            Dispatch::Respond { call, values } => DispatchView::Respond {
                call,
                values: json::json_of(values),
            },
            Dispatch::Serve { callback, service, id, request } => DispatchView::Serve {
                callback,
                service: service@,
                id: message::text_of(id),
                request: request@,
            },
        }
    }
}

impl Dispatch {
    /// No subscriber is to be handed the same message twice.
    pub open spec fn once_each(self) -> bool {
        match self {
            Dispatch::Deliver { handles, .. } => handles@.no_duplicates(),
            _ => true,
        }
    }
}

/// What reading from the websocket gave.
#[derive(Debug)]
pub enum Read {
    /// A message.
    Message(Message),
    /// A failure, as described here.
    Failed(String),
    /// The end of the stream.
    Ended,
}

/// What taking a subscriber away found.
#[derive(Debug, Clone, Copy, PartialEq, Eq, Structural)]
pub enum Removal {
    /// The topic was never subscribed to.
    TopicNotFound,
    /// The subscriber was not listed on the topic.
    HandleNotFound,
    /// Other subscribers are left on the topic.
    HandlesLeft,
    /// It was the last subscriber on the topic.
    Last,
}

/// A client connection to the rosbridge_server that allows for publishing and subscribing to
/// topics.
pub struct Client {
    /// Identifies this connection in the log, an application may hold several.
    label: String,
    /// The message types of the publishers that were handed out, by topic.
    publishers: Table<String>,
    /// Who listens, by topic.
    subscriptions: Table<Subscription>,
    /// The types and callbacks of the advertised services, by service.
    services: Table<Service>,
    /// The numbers of the callers that wait for a response, by call id.
    service_calls: Table<u64>,
    heartbeat: Heartbeat,
    opts: ClientHandleOptions,
}

/// What a [`Client`] knows.
#[verifier::ext_equal]
pub struct ClientView {
    pub label: Seq<char>,
    pub publishers: Map<Seq<char>, Seq<char>>,
    pub subscriptions: Map<Seq<char>, SubscriptionView>,
    pub services: Map<Seq<char>, ServiceView>,
    pub service_calls: Map<Seq<char>, u64>,
    pub heartbeat: Heartbeat,
    pub opts: OptionsView,
}

impl ClientView {
    /// What a received publish asks for: each subscriber of its topic gets its `msg`.
    pub open spec fn publish_handled(self, data: IncomingView) -> DispatchView {
        match data.topic {
            None => DispatchView::Ignored(Ignored::MissingTopic),
            Some(topic) => if !self.subscriptions.contains_key(topic) {
                DispatchView::Ignored(Ignored::NotSubscribed)
            } else {
                match data.msg {
                    None => DispatchView::Ignored(Ignored::MissingMsg),
                    Some(msg) => DispatchView::Deliver {
                        handles: self.subscriptions[topic].handles,
                        msg,
                    },
                }
            },
        }
    }

    /// What a received service response asks for: the caller that waits under its `id` gets its
    /// `values`, and stops waiting.
    pub open spec fn response_handled(self, data: IncomingView) -> (ClientView, DispatchView) {
        match data.id {
            None => (self, DispatchView::Ignored(Ignored::MissingCallId)),
            Some(id) => if !self.service_calls.contains_key(id) {
                (self, DispatchView::Ignored(Ignored::UnknownCall))
            } else {
                (
                    ClientView { service_calls: self.service_calls.remove(id), ..self },
                    DispatchView::Respond { call: self.service_calls[id], values: data.values },
                )
            },
        }
    }

    /// What a received service call asks for: the callback of its `service` runs on its `args`.
    pub open spec fn service_handled(self, data: IncomingView) -> DispatchView {
        match data.service {
            None => DispatchView::Ignored(Ignored::MissingService),
            Some(service) => if !self.services.contains_key(service) {
                DispatchView::Ignored(Ignored::NotAdvertised)
            } else {
                match data.args {
                    None => DispatchView::Ignored(Ignored::MissingArgs),
                    Some(request) => DispatchView::Serve {
                        callback: self.services[service].callback,
                        service,
                        id: data.id,
                        request,
                    },
                }
            },
        }
    }

    /// What a received operation asks for.
    pub open spec fn incoming_handled(self, data: IncomingView) -> (ClientView, DispatchView) {
        match data.op {
            Ops::Publish => (self, self.publish_handled(data)),
            Ops::ServiceResponse => self.response_handled(data),
            Ops::CallService => (self, self.service_handled(data)),
            _ => (self, DispatchView::Ignored(Ignored::UnhandledOp)),
        }
    }

    /// What a received text asks for.
    pub open spec fn text_handled(self, text: Seq<char>) -> (ClientView, DispatchView) {
        match message::incoming(text) {
            Ok(data) => self.incoming_handled(data),
            Err(reason) => (self, DispatchView::Ignored(reason)),
        }
    }

    /// What a received message asks for. Only a close is an error.
    pub open spec fn message_handled(self, msg: Message, now: Instant) -> (
        ClientView,
        Result<DispatchView, ErrorView>,
    ) {
        match msg {
            Message::Text(text) => {
                let (client, dispatch) = self.text_handled(text@);
                (client, Ok(dispatch))
            },
            Message::Close(close) => (
                self,
                Err(ErrorView::Unexpected("Close requested from server: "@ + close@)),
            ),
            Message::Ping(_) => (self, Ok(DispatchView::Ignored(Ignored::Ping))),
            Message::Pong(_) => (
                ClientView {
                    heartbeat: Heartbeat { last_pong_received: now, ..self.heartbeat },
                    ..self
                },
                Ok(DispatchView::Pong),
            ),
            _ => (self, Ok(DispatchView::Ignored(Ignored::NotText))),
        }
    }

    /// What a read asks for.
    pub open spec fn read_handled(self, read: Read, now: Instant) -> (
        ClientView,
        Result<DispatchView, ErrorView>,
    ) {
        match read {
            Read::Message(msg) => self.message_handled(msg, now),
            Read::Failed(reason) => (self, Err(ErrorView::IoError(reason@))),
            Read::Ended => (self, Err(ErrorView::Unexpected("Wtf does none mean here?"@))),
        }
    }

    /// The client without any call in flight.
    pub open spec fn without_calls(self) -> ClientView {
        ClientView { service_calls: Map::empty(), ..self }
    }

    /// The client on a new socket, on which no call has been made.
    pub open spec fn reconnected(self, now: Instant) -> ClientView {
        ClientView {
            heartbeat: Heartbeat { last_ping_sent: now, last_pong_received: now },
            ..self.without_calls()
        }
    }

    /// Whether any subscriber listens on `topic`.
    pub open spec fn listened(self, topic: Seq<char>) -> bool {
        self.subscriptions.contains_key(topic) && self.subscriptions[topic].handles != Set::<
            u128,
        >::empty()
    }

    /// The client with a subscription for `topic`, which has `topic_type` unless it was there
    /// already.
    pub open spec fn subscription_opened(self, topic: Seq<char>, topic_type: Seq<char>) -> ClientView {
        if self.subscriptions.contains_key(topic) {
            self
        } else {
            ClientView {
                subscriptions: self.subscriptions.insert(
                    topic,
                    SubscriptionView { topic_type, handles: Set::empty() },
                ),
                ..self
            }
        }
    }

    /// The client with another subscriber on `topic`.
    pub open spec fn handle_added(
        self,
        topic: Seq<char>,
        topic_type: Seq<char>,
        id: u128,
    ) -> ClientView {
        let opened = self.subscription_opened(topic, topic_type);
        let subscription = opened.subscriptions[topic];
        ClientView {
            subscriptions: opened.subscriptions.insert(
                topic,
                SubscriptionView { handles: subscription.handles.insert(id), ..subscription },
            ),
            ..opened
        }
    }

    /// The client without a subscriber on `topic`, and what was found. The subscription itself
    /// stays, even without subscribers.
    pub open spec fn handle_removed(self, topic: Seq<char>, id: u128) -> (ClientView, Removal) {
        if !self.subscriptions.contains_key(topic) {
            (self, Removal::TopicNotFound)
        } else if !self.subscriptions[topic].handles.contains(id) {
            (self, Removal::HandleNotFound)
        } else {
            let subscription = self.subscriptions[topic];
            let left = subscription.handles.remove(id);
            (
                ClientView {
                    subscriptions: self.subscriptions.insert(
                        topic,
                        SubscriptionView { handles: left, ..subscription },
                    ),
                    ..self
                },
                if left == Set::<u128>::empty() {
                    Removal::Last
                } else {
                    Removal::HandlesLeft
                },
            )
        }
    }

    /// The client without the call `id`.
    pub open spec fn call_dropped(self, id: Seq<char>) -> ClientView {
        ClientView { service_calls: self.service_calls.remove(id), ..self }
    }
}

/// The numbers of the callers with these call ids.
pub open spec fn callers(ids: Seq<Seq<char>>, calls: Map<Seq<char>, u64>) -> Seq<u64> {
    ids.map_values(|id: Seq<char>| calls[id])
}

/// Whether `woken` has the number of each call in flight, once for each call.
pub open spec fn wakes(woken: Seq<u64>, calls: Map<Seq<char>, u64>) -> bool {
    exists|ids: Seq<Seq<char>>|
        {
            &&& ids.no_duplicates()
            &&& forall|id: Seq<char>| #[trigger] ids.contains(id) <==> calls.contains_key(id)
            &&& woken == #[trigger] callers(ids, calls)
        }
}

/// Those who are woken are exactly the callers in flight.
pub proof fn exactly_the_callers_are_woken(woken: Seq<u64>, calls: Map<Seq<char>, u64>)
    requires
        wakes(woken, calls),
    ensures
        forall|id: Seq<char>| #[trigger] calls.contains_key(id) ==> woken.contains(calls[id]),
        forall|caller: u64| #[trigger] woken.contains(caller) ==> calls.contains_value(caller),
{
    let ids = choose|ids: Seq<Seq<char>>|
        {
            &&& ids.no_duplicates()
            &&& forall|id: Seq<char>| #[trigger] ids.contains(id) <==> calls.contains_key(id)
            &&& woken == #[trigger] callers(ids, calls)
        };
    assert forall|id: Seq<char>| #[trigger] calls.contains_key(id) implies woken.contains(
        calls[id],
    ) by {
        assert(ids.contains(id));
        let i = choose|i: int| 0 <= i < ids.len() && ids[i] == id;
        assert(woken[i] == calls[id]);
    }
    assert forall|caller: u64| #[trigger] woken.contains(caller) implies calls.contains_value(
        caller,
    ) by {
        let i = choose|i: int| 0 <= i < woken.len() && woken[i] == caller;
        assert(ids.contains(ids[i]));
    }
}

/// What a list of frames says.
pub open spec fn frame_views(frames: Seq<Frame>) -> Seq<FrameView> {
    frames.map_values(|frame: Frame| frame@)
}

/// Whether a frame belongs to what a new socket must be told: an advertise for each publisher, a
/// subscribe for each topic that was subscribed to and an advertise for each service.
pub open spec fn restoring(client: ClientView, frame: FrameView) -> bool {
    match frame {
        FrameView::Advertise { topic, topic_type } => table::found(client.publishers, topic)
            == Some(topic_type),
        FrameView::Subscribe { topic, topic_type } => {
            &&& client.subscriptions.contains_key(topic)
            &&& client.subscriptions[topic].topic_type == topic_type
        },
        FrameView::AdvertiseService { service, service_type } => {
            &&& client.services.contains_key(service)
            &&& client.services[service].service_type == service_type
        },
        _ => false,
    }
}

/// The place of a frame among those that a new socket is told: publishers come first, then
/// subscriptions, then services.
pub open spec fn restoring_rank(frame: FrameView) -> int {
    match frame {
        FrameView::Advertise { .. } => 0,
        FrameView::Subscribe { .. } => 1,
        _ => 2,
    }
}

/// Whether `frames` tells a new socket all that it must be told, each once, in the order of
/// [`restoring_rank`].
pub open spec fn restores(frames: Seq<FrameView>, client: ClientView) -> bool {
    &&& frames.no_duplicates()
    &&& forall|frame: FrameView| #[trigger] frames.contains(frame) <==> restoring(client, frame)
    &&& forall|i: int, j: int|
        0 <= i < j < frames.len() ==> restoring_rank(#[trigger] frames[i]) <= restoring_rank(
            #[trigger] frames[j],
        )
}

/// The advertise of the publisher of a topic.
spec fn advertise_of(client: ClientView) -> spec_fn(Seq<char>) -> FrameView {
    |topic: Seq<char>| FrameView::Advertise { topic, topic_type: client.publishers[topic] }
}

/// The subscribe of a topic.
spec fn subscribe_of(client: ClientView) -> spec_fn(Seq<char>) -> FrameView {
    |topic: Seq<char>|
        FrameView::Subscribe { topic, topic_type: client.subscriptions[topic].topic_type }
}

/// The advertise of a service.
spec fn service_advertise_of(client: ClientView) -> spec_fn(Seq<char>) -> FrameView {
    |service: Seq<char>|
        FrameView::AdvertiseService {
            service,
            service_type: client.services[service].service_type,
        }
}

/// Lists the frame of each item of a table.
fn push_frames<T, F: Fn(&String, &T) -> Frame>(
    table: &Table<T>,
    frame_of: F,
    frames: &mut Vec<Frame>,
    Ghost(listing): Ghost<spec_fn(Seq<char>) -> FrameView>,
)
    requires
        table.wf(),
        forall|name: &String, item: &T| #[trigger] call_requires(frame_of, (name, item)),
        forall|name: &String, item: &T, frame: Frame|
            (#[trigger] call_ensures(frame_of, (name, item), frame) && table@.contains_key(name@)
                && table@[name@] == *item) ==> frame@ == listing(name@),
    ensures
        frame_views(final(frames)@) == frame_views(old(frames)@) + table.order().map_values(
            listing,
        ),
{
    let ghost before = frame_views(frames@);
    let ghost names = table.order();
    proof {
        table.order_lists_names();
    }
    assert(frame_views(frames@) =~= before + names.take(0).map_values(listing));
    let mut i: usize = 0;
    while i < table.len()
        invariant
            table.wf(),
            names == table.order(),
            forall|name: Seq<char>| #[trigger]
                names.contains(name) <==> table@.contains_key(name),
            forall|name: &String, item: &T| #[trigger] call_requires(frame_of, (name, item)),
            forall|name: &String, item: &T, frame: Frame|
                (#[trigger] call_ensures(frame_of, (name, item), frame) && table@.contains_key(
                    name@,
                ) && table@[name@] == *item) ==> frame@ == listing(name@),
            i <= names.len(),
            frame_views(frames@) == before + names.take(i as int).map_values(listing),
        decreases names.len() - i,
    {
        let ghost listed = frame_views(frames@);
        assert(names.contains(names[i as int]));
        frames.push(frame_of(table.name_at(i), table.item_at(i)));
        proof {
            assert(frame_views(frames@) =~= listed.push(frames@.last()@));
            assert(frame_views(frames@) =~= before + names.take(i + 1).map_values(listing));
        }
        i += 1;
    }
    assert(names.take(i as int) =~= names);
}

proof fn lemma_restores(
    client: ClientView,
    published: Seq<Seq<char>>,
    subscribed: Seq<Seq<char>>,
    served: Seq<Seq<char>>,
    frames: Seq<FrameView>,
)
    requires
        published.no_duplicates(),
        subscribed.no_duplicates(),
        served.no_duplicates(),
        forall|topic: Seq<char>| #[trigger]
            published.contains(topic) <==> client.publishers.contains_key(topic),
        forall|topic: Seq<char>| #[trigger]
            subscribed.contains(topic) <==> client.subscriptions.contains_key(topic),
        forall|service: Seq<char>| #[trigger]
            served.contains(service) <==> client.services.contains_key(service),
        frames == published.map_values(advertise_of(client)) + subscribed.map_values(
            subscribe_of(client),
        ) + served.map_values(service_advertise_of(client)),
    ensures
        restores(frames, client),
{
    let n = published.len();
    let m = n + subscribed.len();
    assert forall|frame: FrameView| #[trigger] frames.contains(frame) <==> restoring(client, frame) by {
        if frames.contains(frame) {
            let i = choose|i: int| 0 <= i < frames.len() && frames[i] == frame;
            if i < n {
                assert(published.contains(published[i]));
            } else if i < m {
                assert(subscribed.contains(subscribed[i - n]));
            } else {
                assert(served.contains(served[i - m]));
            }
        }
        if restoring(client, frame) {
            match frame {
                FrameView::Advertise { topic, topic_type } => {
                    assert(published.contains(topic));
                    let i = choose|i: int| 0 <= i < n && published[i] == topic;
                    assert(frames[i] == frame);
                },
                FrameView::Subscribe { topic, topic_type } => {
                    assert(subscribed.contains(topic));
                    let i = choose|i: int| 0 <= i < subscribed.len() && subscribed[i] == topic;
                    assert(frames[n + i] == frame);
                },
                FrameView::AdvertiseService { service, service_type } => {
                    assert(served.contains(service));
                    let i = choose|i: int| 0 <= i < served.len() && served[i] == service;
                    assert(frames[m + i] == frame);
                },
                _ => {},
            }
        }
    }
}

impl View for Client {
    type V = ClientView;

    closed spec fn view(&self) -> ClientView {
        ClientView {
            label: self.label@,
            publishers: self.publishers@.map_values(|topic_type: String| topic_type@),
            subscriptions: self.subscriptions@.map_values(
                |subscription: Subscription| subscription@,
            ),
            services: self.services@.map_values(|service: Service| service@),
            service_calls: self.service_calls@,
            heartbeat: self.heartbeat,
            opts: self.opts@,
        }
    }
}

impl Client {
    /// Each table is well formed.
    pub closed spec fn wf(self) -> bool {
        &&& self.publishers.wf()
        &&& self.subscriptions.wf()
        &&& self.services.wf()
        &&& self.service_calls.wf()
    }

    /// A client with connection number `id` whose socket was established at `now`.
    pub fn new(opts: ClientHandleOptions, id: usize, now: Instant) -> (client: Client)
        ensures
            client.wf(),
            client@ == (ClientView {
                label: label::label(opts@, id as nat),
                publishers: Map::empty(),
                subscriptions: Map::empty(),
                services: Map::empty(),
                service_calls: Map::empty(),
                heartbeat: Heartbeat { last_ping_sent: now, last_pong_received: now },
                opts: opts@,
            }),
    {
        let client = Client {
            label: connection_label(&opts, id),
            publishers: Table::new(),
            subscriptions: Table::new(),
            services: Table::new(),
            service_calls: Table::new(),
            heartbeat: Heartbeat::new(now),
            opts,
        };
        assert(client@.publishers =~= Map::empty());
        assert(client@.subscriptions =~= Map::empty());
        assert(client@.services =~= Map::empty());
        client
    }

    /// The prefix of this connection's log messages.
    pub fn label(&self) -> (label: &str)
        ensures
            label@ == self@.label,
    {
        self.label.as_str()
    }

    /// How the client is configured.
    pub fn opts(&self) -> (opts: &ClientHandleOptions)
        ensures
            opts@ == self@.opts,
    {
        &self.opts
    }

    /// Whether any service call is in flight.
    pub fn has_calls(&self) -> (calls: bool)
        requires
            self.wf(),
        ensures
            calls == !(self@.service_calls == Map::<Seq<char>, u64>::empty()),
    {
        proof {
            self.service_calls.order_lists_names();
            let order = self.service_calls.order();
            if order.len() > 0 {
                assert(order.contains(order[0]));
            } else {
                assert forall|id: Seq<char>| !self.service_calls@.contains_key(id) by {
                    assert(!order.contains(id));
                }
                assert(self.service_calls@ =~= Map::<Seq<char>, u64>::empty());
            }
        }
        self.service_calls.len() > 0
    }

    /// Answers a message from the server.
    ///
    /// Only a close is an error: it hands control back to the loop that reconnects.
    pub fn handle_message(&mut self, msg: Message, now: Instant) -> (result: Result<
        Dispatch,
        Error,
    >)
        requires
            old(self).wf(),
        ensures
            final(self).wf(),
            (final(self)@, error::viewed(result)) == old(self)@.message_handled(msg, now),
            result is Ok ==> result->Ok_0.once_each(),
    {
        match msg {
            Message::Text(text) => Ok(self.handle_text(text.as_str())),
            Message::Close(close) => {
                let mut reason = "Close requested from server: ".to_owned();
                reason.append(close.as_str());
                Err(Error::Unexpected(reason))
            },
            Message::Ping(_) => Ok(Dispatch::Ignored(Ignored::Ping)),
            Message::Pong(_) => {
                self.heartbeat.last_pong_received = now;
                Ok(Dispatch::Pong)
            },
            _ => Ok(Dispatch::Ignored(Ignored::NotText)),
        }
    }

    /// Answers a text message.
    pub fn handle_text(&mut self, text: &str) -> (dispatch: Dispatch)
        requires
            old(self).wf(),
        ensures
            final(self).wf(),
            (final(self)@, dispatch@) == old(self)@.text_handled(text@),
            dispatch.once_each(),
    {
        match Incoming::decode(text) {
            Ok(data) => self.handle_incoming(data),
            Err(reason) => Dispatch::Ignored(reason),
        }
    }

    /// Answers a text message that has been read.
    pub fn handle_incoming(&mut self, data: Incoming) -> (dispatch: Dispatch)
        requires
            old(self).wf(),
        ensures
            final(self).wf(),
            (final(self)@, dispatch@) == old(self)@.incoming_handled(data@),
            dispatch.once_each(),
    {
        match data.op {
            Ops::Publish => self.handle_publish(data),
            Ops::ServiceResponse => self.handle_response(data),
            Ops::CallService => self.handle_service(data),
            _ => Dispatch::Ignored(Ignored::UnhandledOp),
        }
    }

    /// Answers a service response: looks up who waits for it.
    ///
    /// A response can come after its caller has stopped waiting. It is then ignored.
    pub fn handle_response(&mut self, data: Incoming) -> (dispatch: Dispatch)
        requires
            old(self).wf(),
        ensures
            final(self).wf(),
            (final(self)@, dispatch@) == old(self)@.response_handled(data@),
            dispatch.once_each(),
    {
        let ghost before = *self;
        match data.id {
            Some(id) => match self.service_calls.remove(id.as_str()) {
                Some(call) => Dispatch::Respond { call, values: data.values },
                None => {
                    assert(self.service_calls@ =~= before.service_calls@);
                    Dispatch::Ignored(Ignored::UnknownCall)
                },
            },
            None => Dispatch::Ignored(Ignored::MissingCallId),
        }
    }

    /// Answers a service call: looks up if there is a service registered under its name.
    pub fn handle_service(&self, data: Incoming) -> (dispatch: Dispatch)
        requires
            self.wf(),
        ensures
            dispatch@ == self@.service_handled(data@),
            dispatch.once_each(),
    {
        match data.service {
            Some(service) => match self.services.get(service.as_str()) {
                Some(found) => match data.args {
                    Some(request) => Dispatch::Serve {
                        callback: found.callback,
                        service,
                        id: data.id,
                        request,
                    },
                    None => Dispatch::Ignored(Ignored::MissingArgs),
                },
                None => Dispatch::Ignored(Ignored::NotAdvertised),
            },
            None => Dispatch::Ignored(Ignored::MissingService),
        }
    }

    /// Answers a publish: its message goes to all who listen on its topic.
    ///
    /// A publish can come for a topic that is not subscribed to, in the window before rosbridge
    /// has processed an unsubscribe. It is then ignored.
    pub fn handle_publish(&self, data: Incoming) -> (dispatch: Dispatch)
        requires
            self.wf(),
        ensures
            dispatch@ == self@.publish_handled(data@),
            dispatch.once_each(),
    {
        match data.topic {
            Some(topic) => match self.subscriptions.get(topic.as_str()) {
                Some(subscription) => match data.msg {
                    Some(msg) => Dispatch::Deliver { handles: subscription.handles(), msg },
                    None => Dispatch::Ignored(Ignored::MissingMsg),
                },
                None => Dispatch::Ignored(Ignored::NotSubscribed),
            },
            None => Dispatch::Ignored(Ignored::MissingTopic),
        }
    }

    /// Asks for a ping on an interval, and reports an error once the server has stopped answering
    /// them.
    ///
    /// A websocket that dies without a close frame leaves reads pending forever and writes
    /// apparently succeeding, so this round trip is the only thing that can detect it.
    pub fn check_heartbeat(&mut self, now: Instant, writer_free: bool) -> (result: Result<
        HeartbeatStep,
        Error,
    >)
        requires
            old(self).wf(),
        ensures
            final(self).wf(),
            final(self)@ == (ClientView {
                heartbeat: old(self)@.heartbeat.checked(now, writer_free).0,
                ..old(self)@
            }),
            error::outcome(result) == old(self)@.heartbeat.checked(now, writer_free).1,
    {
        self.heartbeat.check(now, writer_free)
    }

    /// Answers what was read from the websocket.
    pub fn spin_once(&mut self, read: Read, now: Instant) -> (result: Result<Dispatch, Error>)
        requires
            old(self).wf(),
        ensures
            final(self).wf(),
            (final(self)@, error::viewed(result)) == old(self)@.read_handled(read, now),
            result is Ok ==> result->Ok_0.once_each(),
    {
        match read {
            Read::Message(msg) => self.handle_message(msg, now),
            Read::Failed(reason) => Err(Error::IoError(reason)),
            Read::Ended => Err(Error::Unexpected("Wtf does none mean here?".to_owned())),
        }
    }

    /// Gives up on all calls in flight, and hands back the numbers of their callers.
    ///
    /// Responses to calls made on a lost connection will never arrive.
    pub fn abandon_calls(&mut self) -> (woken: Vec<u64>)
        requires
            old(self).wf(),
        ensures
            final(self).wf(),
            final(self)@ == old(self)@.without_calls(),
            wakes(woken@, old(self)@.service_calls),
    {
        proof {
            self.service_calls.order_lists_names();
        }
        let ghost ids = self.service_calls.order();
        let ghost calls = self.service_calls@;
        let woken = self.service_calls.drain();
        assert(woken@ == callers(ids, calls));
        woken
    }

    /// Takes a new socket into use, and hands back whom to wake and what the socket must be told:
    /// every publisher is re-advertised, every subscription is requested again, and every service
    /// is re-advertised.
    ///
    /// Responses to calls made on the old socket will never arrive, so their callers are woken
    /// without one. Callers need not wait for a new socket: [`Client::abandon_calls`] finds them
    /// before.
    pub fn reconnect(&mut self, now: Instant) -> (result: (Vec<u64>, Vec<Frame>))
        requires
            old(self).wf(),
        ensures
            final(self).wf(),
            final(self)@ == old(self)@.reconnected(now),
            wakes(result.0@, old(self)@.service_calls),
            restores(frame_views(result.1@), old(self)@),
    {
        let woken = self.abandon_calls();
        // A new socket gets a clean liveness deadline
        self.heartbeat = Heartbeat::new(now);
        let mut frames: Vec<Frame> = Vec::new();
        let advertise = |topic: &String, topic_type: &String| -> (frame: Frame)
            ensures
                frame@ == (FrameView::Advertise { topic: topic@, topic_type: topic_type@ }),
            { Frame::Advertise { topic: topic.clone(), topic_type: topic_type.clone() } };
        let subscribe = |topic: &String, subscription: &Subscription| -> (frame: Frame)
            ensures
                frame@ == (FrameView::Subscribe {
                    topic: topic@,
                    topic_type: subscription@.topic_type,
                }),
            {
                Frame::Subscribe {
                    topic: topic.clone(),
                    topic_type: subscription.topic_type().clone(),
                }
            };
        let serve = |service: &String, kept: &Service| -> (frame: Frame)
            ensures
                frame@ == (FrameView::AdvertiseService {
                    service: service@,
                    service_type: kept@.service_type,
                }),
            {
                Frame::AdvertiseService {
                    service: service.clone(),
                    service_type: kept.service_type.clone(),
                }
            };
        push_frames(&self.publishers, advertise, &mut frames, Ghost(advertise_of(self@)));
        push_frames(&self.subscriptions, subscribe, &mut frames, Ghost(subscribe_of(self@)));
        push_frames(&self.services, serve, &mut frames, Ghost(service_advertise_of(self@)));
        proof {
            self.publishers.order_lists_names();
            self.subscriptions.order_lists_names();
            self.services.order_lists_names();
            let published = self.publishers.order();
            let subscribed = self.subscriptions.order();
            let served = self.services.order();
            assert(frame_views(frames@) =~= published.map_values(advertise_of(self@))
                + subscribed.map_values(subscribe_of(self@)) + served.map_values(
                service_advertise_of(self@),
            ));
            lemma_restores(self@, published, subscribed, served, frame_views(frames@));
            assert forall|frame: FrameView| #[trigger]
                restoring(self@, frame) == restoring(old(self)@, frame) by {}
        }
        (woken, frames)
    }

    /// Whether a publisher was handed out for `topic`.
    pub(crate) fn has_publisher(&self, topic: &str) -> (known: bool)
        requires
            self.wf(),
        ensures
            known == self@.publishers.contains_key(topic@),
    {
        self.publishers.contains_key(topic)
    }

    /// Records a publisher.
    pub(crate) fn add_publisher(&mut self, topic: &str, topic_type: &str)
        requires
            old(self).wf(),
        ensures
            final(self).wf(),
            final(self)@ == (ClientView {
                publishers: old(self)@.publishers.insert(topic@, topic_type@),
                ..old(self)@
            }),
    {
        let ghost before = *self;
        self.publishers.insert(topic, topic_type.to_owned());
        assert(self@.publishers =~= before@.publishers.insert(topic@, topic_type@));
    }

    /// Strikes a publisher off the record.
    pub(crate) fn remove_publisher(&mut self, topic: &str)
        requires
            old(self).wf(),
        ensures
            final(self).wf(),
            final(self)@ == (ClientView {
                publishers: old(self)@.publishers.remove(topic@),
                ..old(self)@
            }),
    {
        let ghost before = *self;
        self.publishers.remove(topic);
        assert(self@.publishers =~= before@.publishers.remove(topic@));
    }

    /// Whether any subscriber listens on `topic`.
    pub(crate) fn has_listener(&self, topic: &str) -> (listened: bool)
        requires
            self.wf(),
        ensures
            listened == self@.listened(topic@),
    {
        match self.subscriptions.get(topic) {
            Some(subscription) => !subscription.is_empty(),
            None => false,
        }
    }

    /// Makes sure that there is a subscription for `topic`. One that is there already keeps its
    /// message type.
    pub(crate) fn open_subscription(&mut self, topic: &str, topic_type: &str)
        requires
            old(self).wf(),
        ensures
            final(self).wf(),
            final(self)@ == old(self)@.subscription_opened(topic@, topic_type@),
    {
        let ghost before = *self;
        if !self.subscriptions.contains_key(topic) {
            self.subscriptions.insert(topic, Subscription::new(topic_type));
            assert(self@.subscriptions =~= before@.subscription_opened(
                topic@,
                topic_type@,
            ).subscriptions);
        }
    }

    /// Adds a subscriber to `topic`.
    pub(crate) fn add_handle(&mut self, topic: &str, topic_type: &str, id: u128)
        requires
            old(self).wf(),
        ensures
            final(self).wf(),
            final(self)@ == old(self)@.handle_added(topic@, topic_type@, id),
    {
        self.open_subscription(topic, topic_type);
        let ghost opened = *self;
        match self.subscriptions.get_mut(topic) {
            Some(subscription) => subscription.add(id),
            None => {
                assert(opened@.subscriptions.contains_key(topic@));
            },
        }
        assert(self@.subscriptions =~= old(self)@.handle_added(
            topic@,
            topic_type@,
            id,
        ).subscriptions);
    }

    /// Takes a subscriber away from `topic`.
    pub(crate) fn remove_handle(&mut self, topic: &str, id: u128) -> (removal: Removal)
        requires
            old(self).wf(),
        ensures
            final(self).wf(),
            (final(self)@, removal) == old(self)@.handle_removed(topic@, id),
    {
        let ghost before = *self;
        let removal = match self.subscriptions.get_mut(topic) {
            Some(subscription) => if !subscription.remove(id) {
                Removal::HandleNotFound
            } else if subscription.is_empty() {
                Removal::Last
            } else {
                Removal::HandlesLeft
            },
            None => Removal::TopicNotFound,
        };
        proof {
            if removal is HandleNotFound {
                let handles = before@.subscriptions[topic@].handles;
                assert(handles.remove(id) =~= handles);
            }
            assert(self@.subscriptions =~= before@.handle_removed(topic@, id).0.subscriptions);
        }
        removal
    }

    /// Whether `service` is advertised.
    pub(crate) fn has_service(&self, service: &str) -> (known: bool)
        requires
            self.wf(),
        ensures
            known == self@.services.contains_key(service@),
    {
        self.services.contains_key(service)
    }

    /// Records a service with its type and the number of its callback.
    pub(crate) fn add_service(&mut self, service: &str, service_type: &str, callback: u64)
        requires
            old(self).wf(),
        ensures
            final(self).wf(),
            final(self)@ == (ClientView {
                services: old(self)@.services.insert(
                    service@,
                    ServiceView { service_type: service_type@, callback },
                ),
                ..old(self)@
            }),
    {
        let ghost before = *self;
        self.services.insert(service, Service { service_type: service_type.to_owned(), callback });
        assert(self@.services =~= before@.services.insert(
            service@,
            ServiceView { service_type: service_type@, callback },
        ));
    }

    /// Strikes a service off the record, and hands back the number of its callback.
    pub(crate) fn remove_service(&mut self, service: &str) -> (callback: Option<u64>)
        requires
            old(self).wf(),
        ensures
            final(self).wf(),
            final(self)@ == (ClientView {
                services: old(self)@.services.remove(service@),
                ..old(self)@
            }),
            callback == service::callback_of(table::found(old(self)@.services, service@)),
    {
        let ghost before = *self;
        let removed = self.services.remove(service);
        assert(self@.services =~= before@.services.remove(service@));
        match removed {
            Some(found) => Some(found.callback),
            None => None,
        }
    }

    /// Records a caller under a call id, and hands back the one that waited under it.
    pub(crate) fn add_call(&mut self, id: &str, call: u64) -> (replaced: Option<u64>)
        requires
            old(self).wf(),
        ensures
            final(self).wf(),
            final(self)@ == (ClientView {
                service_calls: old(self)@.service_calls.insert(id@, call),
                ..old(self)@
            }),
            replaced == table::found(old(self)@.service_calls, id@),
    {
        self.service_calls.insert(id, call)
    }

    /// Strikes the caller under a call id off the record.
    pub(crate) fn remove_call(&mut self, id: &str)
        requires
            old(self).wf(),
        ensures
            final(self).wf(),
            final(self)@ == old(self)@.call_dropped(id@),
    {
        self.service_calls.remove(id);
    }
}

} // verus!
