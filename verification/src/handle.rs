//! The operations that users of a client call.
use crate::client::{Client, ClientView, Removal};
use crate::error::{self, Error, ErrorView, Waited, timeout};
use crate::frame::{self, Frame, FrameView};
use crate::heartbeat::Heartbeat;
use crate::json::{self, Json};
use crate::label;
use crate::message;
use crate::options::{ClientHandleOptions, OptionsView};
use crate::service::{self, ServiceView};
use crate::table;
use crate::time::{Duration, Instant};
use vstd::prelude::*;

verus! {

/// The ClientHandle is the fundamental object through which users of this library are expected
/// to interact with it.
///
/// An operation that needs the connection hands back the frame to be sent. What came of sending
/// it is reported to the operation that follows.
pub struct ClientHandle {
    pub inner: Client,
    pub is_disconnected: bool,
}

/// What a [`ClientHandle`] knows.
#[verifier::ext_equal]
pub struct HandleView {
    pub client: ClientView,
    pub connected: bool,
}

impl View for ClientHandle {
    type V = HandleView;

    open spec fn view(&self) -> HandleView {
        HandleView { client: self.inner@, connected: !self.is_disconnected }
    }
}

/// A service call that has been recorded and is to be sent.
#[derive(Debug)]
pub struct ServiceCall {
    /// The id under which the response will come.
    pub id: String,
    /// The request.
    pub frame: Frame,
    /// The number of the caller that waited under the same id, which will get no response.
    pub replaced: Option<u64>,
}

/// What a [`ServiceCall`] says.
pub struct ServiceCallView {
    pub id: Seq<char>,
    pub frame: FrameView,
    pub replaced: Option<u64>,
}

impl View for ServiceCall {
    type V = ServiceCallView;

    open spec fn view(&self) -> ServiceCallView {
        ServiceCallView { id: self.id@, frame: self.frame@, replaced: self.replaced }
    }
}

/// Repeatedly calls one service.
#[derive(Debug)]
pub struct ServiceClient {
    pub service: String,
}

impl HandleView {
    /// The handle after a subscribe, and what it returns: a request exactly if nobody listens on
    /// the topic.
    pub open spec fn subscribe(self, topic: Seq<char>, topic_type: Seq<char>) -> (
        HandleView,
        Result<Option<FrameView>, ErrorView>,
    ) {
        if !self.connected {
            (self, Err(ErrorView::Disconnected))
        } else {
            (
                HandleView { client: self.client.subscription_opened(topic, topic_type), ..self },
                Ok(
                    if self.client.listened(topic) {
                        None
                    } else {
                        Some(FrameView::Subscribe { topic, topic_type })
                    },
                ),
            )
        }
    }

    /// What an operation returns whose request was waited for.
    pub open spec fn sent(self, sent: Waited<Result<(), Error>>) -> Result<(), ErrorView> {
        error::timeout_outcome(sent)
    }

    /// The handle once a subscribe was waited for, and what the subscriber is told.
    pub open spec fn subscribed(
        self,
        topic: Seq<char>,
        topic_type: Seq<char>,
        id: u128,
        sent: Waited<Result<(), Error>>,
    ) -> (HandleView, Result<(), ErrorView>) {
        let result = error::timeout_outcome(sent);
        if result is Ok {
            (
                HandleView { client: self.client.handle_added(topic, topic_type, id), ..self },
                result,
            )
        } else {
            (self, result)
        }
    }

    /// What a publish returns.
    pub open spec fn publish(self, topic: Seq<char>, msg: Json) -> Result<FrameView, ErrorView> {
        if !self.connected {
            Err(ErrorView::Disconnected)
        } else {
            Ok(FrameView::Publish { topic, msg })
        }
    }

    /// The handle after an advertise, and what it returns.
    pub open spec fn advertise(self, topic: Seq<char>, topic_type: Seq<char>) -> (
        HandleView,
        Result<FrameView, ErrorView>,
    ) {
        if !self.connected {
            (self, Err(ErrorView::Disconnected))
        } else if self.client.publishers.contains_key(topic) {
            (
                self,
                Err(
                    ErrorView::Unexpected(
                        "Attempted to create two publisher to same topic, this is not supported"@,
                    ),
                ),
            )
        } else {
            (
                HandleView {
                    client: ClientView {
                        publishers: self.client.publishers.insert(topic, topic_type),
                        ..self.client
                    },
                    ..self
                },
                Ok(FrameView::Advertise { topic, topic_type }),
            )
        }
    }

    /// The handle after an unadvertise.
    pub open spec fn unadvertise(self, topic: Seq<char>) -> HandleView {
        HandleView {
            client: ClientView {
                publishers: self.client.publishers.remove(topic),
                ..self.client
            },
            ..self
        }
    }

    /// The handle after a service is advertised, and what that returns.
    pub open spec fn advertise_service(
        self,
        service: Seq<char>,
        service_type: Seq<char>,
        callback: u64,
    ) -> (HandleView, Result<FrameView, ErrorView>) {
        if !self.connected {
            (self, Err(ErrorView::Disconnected))
        } else if self.client.services.contains_key(service) {
            (
                self,
                Err(
                    ErrorView::Unexpected(
                        "roslibrust does not support re-advertising a service without first dropping the previous Service"@,
                    ),
                ),
            )
        } else {
            (
                HandleView {
                    client: ClientView {
                        services: self.client.services.insert(
                            service,
                            ServiceView { service_type, callback },
                        ),
                        ..self.client
                    },
                    ..self
                },
                Ok(FrameView::AdvertiseService { service, service_type }),
            )
        }
    }

    /// The handle after a service is unadvertised.
    pub open spec fn unadvertise_service(self, service: Seq<char>) -> HandleView {
        HandleView {
            client: ClientView { services: self.client.services.remove(service), ..self.client },
            ..self
        }
    }

    /// The handle after a subscriber has left a topic, and what was found.
    pub open spec fn unsubscribe(self, topic: Seq<char>, id: u128) -> (HandleView, Removal) {
        let (client, removal) = self.client.handle_removed(topic, id);
        (HandleView { client, ..self }, removal)
    }

    /// The handle after a service call under `id`, and what the call returns.
    pub open spec fn call_service(
        self,
        service: Seq<char>,
        args: Json,
        id: Seq<char>,
        call: u64,
    ) -> (HandleView, Result<ServiceCallView, ErrorView>) {
        if !self.connected {
            (self, Err(ErrorView::Disconnected))
        } else {
            (
                HandleView {
                    client: ClientView {
                        service_calls: self.client.service_calls.insert(id, call),
                        ..self.client
                    },
                    ..self
                },
                Ok(
                    ServiceCallView {
                        id,
                        frame: FrameView::CallService { service, id, args },
                        replaced: table::found(self.client.service_calls, id),
                    },
                ),
            )
        }
    }

    /// The handle without the call `id`.
    pub open spec fn call_dropped(self, id: Seq<char>) -> HandleView {
        HandleView { client: self.client.call_dropped(id), ..self }
    }

    /// The handle once the request of a call was waited for, and under which deadline to wait for
    /// the response.
    pub open spec fn call_sent(self, id: Seq<char>, sent: Waited<Result<(), Error>>) -> (
        HandleView,
        Result<Option<Duration>, ErrorView>,
    ) {
        match error::timeout_outcome(sent) {
            Ok(_) => (self, Ok(self.client.opts.deadline())),
            Err(error) => (self.call_dropped(id), Err(error)),
        }
    }

    /// The handle once the response of a call was waited for, and what the caller is told.
    pub open spec fn call_replied(
        self,
        id: Seq<char>,
        reply: Waited<Option<serde_json::Value>>,
    ) -> (HandleView, Result<Json, ErrorView>) {
        match reply {
            Waited::Done(Some(values)) => (self, Ok(json::json_of(values))),
            Waited::Done(None) => (
                self,
                Err(
                    ErrorView::Unexpected(
                        "Connection was reset while waiting for a service response: channel closed"@,
                    ),
                ),
            ),
            Waited::Elapsed => (
                self.call_dropped(id),
                Err(ErrorView::Timeout("Service call timed out: Elapsed(())"@)),
            ),
        }
    }
}

/// A handle whose connection was established at `now`: nothing is advertised, subscribed to or
/// called yet.
pub open spec fn connected_handle(opts: OptionsView, id: usize, now: Instant) -> HandleView {
    HandleView {
        client: ClientView {
            label: label::label(opts, id as nat),
            publishers: Map::empty(),
            subscriptions: Map::empty(),
            services: Map::empty(),
            service_calls: Map::empty(),
            heartbeat: Heartbeat { last_ping_sent: now, last_pong_received: now },
            opts,
        },
        connected: true,
    }
}

/// What a call with an answer returns: the response if the answer can be read as one. Otherwise a
/// message in place of it is the server's error, and anything else could not be read.
pub open spec fn reply_result<T>(message: Option<Seq<char>>, typed: Result<T, String>) -> Result<
    T,
    ErrorView,
> {
    match typed {
        Ok(response) => Ok(response),
        Err(reason) => match message {
            Some(text) => Err(ErrorView::ServerError(text)),
            None => Err(ErrorView::SerializationError(reason@)),
        },
    }
}

/// What a call returns whose answer reads as `typed`, and as the string `message` if it is one.
pub fn reply_outcome<T>(message: Option<String>, typed: Result<T, String>) -> (result: Result<
    T,
    Error,
>)
    ensures
        error::outcome(result) == reply_result(message::text_of(message), typed),
        typed matches Ok(response) ==> result == Ok::<T, Error>(response),
        typed is Err && message is Some ==> (result matches Err(Error::ServerError(text)) && text@
            == message->0@),
        typed is Err && message is None ==> (result matches Err(Error::SerializationError(text))
            && text@ == typed->Err_0@),
{
    match typed {
        Ok(response) => Ok(response),
        Err(reason) => match message {
            Some(text) => Err(Error::ServerError(text)),
            None => Err(Error::SerializationError(reason)),
        },
    }
}

/// What a call returns that was answered with `values`, which read as `typed`.
pub fn interpret_reply<T>(values: &serde_json::Value, typed: Result<T, String>) -> (result: Result<
    T,
    Error,
>)
    ensures
        error::outcome(result) == reply_result(json::json_string(json::json_of(*values)), typed),
        typed matches Ok(response) ==> result == Ok::<T, Error>(response),
        typed is Err ==> match json::json_of(*values) {
            Json::Text(text) => result matches Err(Error::ServerError(told)) && told@ == text,
            _ => result matches Err(Error::SerializationError(told)) && told@ == typed->Err_0@,
        },
{
    let message = match values.as_str() {
        Some(text) => Some(text.to_owned()),
        None => None,
    };
    reply_outcome(message, typed)
}

/// Whether `id` is written as a random uuid: in lower case hexadecimal digits, with four hyphens,
/// the version 4 and the variant of RFC 9562.
pub open spec fn is_random_uuid(id: Seq<char>) -> bool {
    &&& id.len() == 36
    &&& id[14] == '4'
    &&& id[19] == '8' || id[19] == '9' || id[19] == 'a' || id[19] == 'b'
    &&& forall|i: int|
        0 <= i < 36 ==> if i == 8 || i == 13 || i == 18 || i == 23 {
            #[trigger] id[i] == '-'
        } else {
            '0' <= id[i] <= '9' || 'a' <= id[i] <= 'f'
        }
}

/// Calls `uuid::Uuid::new_v4` and writes the result with its `to_string`: some random uuid. That
/// two calls differ is not claimed.
#[verifier::external_body]
fn random_id() -> (id: String)
    ensures
        is_random_uuid(id@),
{
    uuid::Uuid::new_v4().to_string()
}

impl ClientHandle {
    /// What the client tracks is well formed.
    pub open spec fn wf(self) -> bool {
        self.inner.wf()
    }

    /// Creates a handle with configurable options and connection number `id`.
    ///
    /// `established` tells when the connection was established for the first time, or that it was
    /// not within the timeout of the options.
    pub fn new_with_options(
        opts: ClientHandleOptions,
        id: usize,
        established: Waited<Instant>,
    ) -> (result: Result<ClientHandle, Error>)
        ensures
            match established {
                Waited::Done(now) => {
                    &&& result is Ok
                    &&& result->Ok_0.wf()
                    &&& result->Ok_0@ == connected_handle(opts@, id, now)
                },
                Waited::Elapsed => error::viewed(result) == Err::<HandleView, ErrorView>(
                    ErrorView::Timeout("Elapsed(())"@),
                ),
            },
    {
        let waited = match established {
            Waited::Done(now) => Waited::Done(Ok(Client::new(opts, id, now))),
            Waited::Elapsed => Waited::Elapsed,
        };
        match timeout(waited) {
            Ok(inner) => Ok(ClientHandle { inner, is_disconnected: false }),
            Err(error) => Err(error),
        }
    }

    /// Creates a handle for the rosbridge instance at the given url, e.g. 'ws://localhost:9090',
    /// once the connection was established at `now`.
    pub fn new(url: &str, id: usize, now: Instant) -> (result: Result<ClientHandle, Error>)
        ensures
            result is Ok,
            result->Ok_0.wf(),
            result->Ok_0@ == connected_handle(
                (OptionsView { url: url@, timeout: None, name: None }),
                id,
                now,
            ),
    {
        ClientHandle::new_with_options(ClientHandleOptions::new(url), id, Waited::Done(now))
    }

    /// Reports whether the client currently has a live connection to rosbridge.
    pub fn is_connected(&self) -> (connected: bool)
        ensures
            connected == self@.connected,
    {
        !self.is_disconnected
    }

    /// Refuses an operation while there is no connection.
    pub fn check_for_disconnect(&self) -> (result: Result<(), Error>)
        ensures
            error::outcome(result) == (if self@.connected {
                Ok(())
            } else {
                Err(ErrorView::Disconnected)
            }),
    {
        if self.is_connected() {
            Ok(())
        } else {
            Err(Error::Disconnected)
        }
    }

    /// Starts a subscription to a topic with msgs of the given type, and hands back the request to
    /// be sent. All subscribers to a topic share one subscription to rosbridge, so there is none
    /// to be sent while anyone listens on the topic.
    ///
    /// It does not check the type against the topic's. A message that does not fit it is simply
    /// not received.
    pub fn subscribe(&mut self, topic_name: &str, topic_type: &str) -> (result: Result<
        Option<Frame>,
        Error,
    >)
        requires
            old(self).wf(),
        ensures
            final(self).wf(),
            (final(self)@, frame::requested(result)) == old(self)@.subscribe(
                topic_name@,
                topic_type@,
            ),
    {
        match self.check_for_disconnect() {
            Ok(()) => {},
            Err(error) => return Err(error),
        }
        if self.inner.has_listener(topic_name) {
            return Ok(None);
        }
        self.inner.open_subscription(topic_name, topic_type);
        Ok(
            Some(
                Frame::Subscribe {
                    topic: topic_name.to_owned(),
                    topic_type: topic_type.to_owned(),
                },
            ),
        )
    }

    /// Ends the wait for a subscribe: once its request has been sent, or where there was none to
    /// send, the subscriber with this id receives what is published on the topic.
    pub fn subscribed(
        &mut self,
        topic_name: &str,
        topic_type: &str,
        id: u128,
        sent: Waited<Result<(), Error>>,
    ) -> (result: Result<(), Error>)
        requires
            old(self).wf(),
        ensures
            final(self).wf(),
            (final(self)@, error::outcome(result)) == old(self)@.subscribed(
                topic_name@,
                topic_type@,
                id,
                sent,
            ),
    {
        match timeout(sent) {
            Ok(()) => {
                self.inner.add_handle(topic_name, topic_type, id);
                Ok(())
            },
            Err(error) => Err(error),
        }
    }

    /// Ends the wait for the request of a publish, an advertise or a service's advertise to be
    /// sent under the deadline of the options.
    pub fn sent(&self, sent: Waited<Result<(), Error>>) -> (result: Result<(), Error>)
        ensures
            error::outcome(result) == self@.sent(sent),
            sent matches Waited::Done(done) ==> result == done,
            sent is Elapsed ==> (result matches Err(Error::Timeout(text)) && text@
                == "Elapsed(())"@),
    {
        timeout(sent)
    }

    /// Publishes a message. Fails immediately if disconnected.
    pub fn publish(&self, topic: &str, msg: serde_json::Value) -> (result: Result<Frame, Error>)
        ensures
            error::viewed(result) == self@.publish(topic@, json::json_of(msg)),
    {
        match self.check_for_disconnect() {
            Ok(()) => Ok(Frame::Publish { topic: topic.to_owned(), msg }),
            Err(error) => Err(error),
        }
    }

    /// Advertises a topic to be published to, and hands back the request to be sent.
    ///
    /// Advertising a topic again before it was unadvertised is not supported and results in an
    /// error.
    pub fn advertise(&mut self, topic: &str, topic_type: &str) -> (result: Result<Frame, Error>)
        requires
            old(self).wf(),
        ensures
            final(self).wf(),
            (final(self)@, error::viewed(result)) == old(self)@.advertise(topic@, topic_type@),
    {
        match self.check_for_disconnect() {
            Ok(()) => {},
            Err(error) => return Err(error),
        }
        if self.inner.has_publisher(topic) {
            return Err(
                Error::Unexpected(
                    "Attempted to create two publisher to same topic, this is not supported".to_owned(),
                ),
            );
        }
        self.inner.add_publisher(topic, topic_type);
        Ok(Frame::Advertise { topic: topic.to_owned(), topic_type: topic_type.to_owned() })
    }

    /// Calls a ros service under a random id, and hands back the request to be sent. The response
    /// goes to the caller with number `call`.
    pub fn call_service(&mut self, service: &str, args: serde_json::Value, call: u64) -> (result:
        Result<ServiceCall, Error>)
        requires
            old(self).wf(),
        ensures
            final(self).wf(),
            exists|id: Seq<char>| #[trigger]
                is_random_uuid(id) && (final(self)@, error::viewed(result)) == old(
                    self,
                )@.call_service(service@, json::json_of(args), id, call),
    {
        self.call_service_with_id(service, args, random_id(), call)
    }

    /// Calls a ros service under the given id, and hands back the request to be sent. The response
    /// goes to the caller with number `call`.
    pub fn call_service_with_id(
        &mut self,
        service: &str,
        args: serde_json::Value,
        id: String,
        call: u64,
    ) -> (result: Result<ServiceCall, Error>)
        requires
            old(self).wf(),
        ensures
            final(self).wf(),
            (final(self)@, error::viewed(result)) == old(self)@.call_service(
                service@,
                json::json_of(args),
                id@,
                call,
            ),
    {
        match self.check_for_disconnect() {
            Ok(()) => {},
            Err(error) => return Err(error),
        }
        let replaced = self.inner.add_call(id.as_str(), call);
        let frame = Frame::CallService { service: service.to_owned(), id: id.clone(), args };
        Ok(ServiceCall { id, frame, replaced })
    }

    /// Ends the wait for the request of a call to be sent, and tells under which deadline to wait
    /// for its response.
    ///
    /// Where the request did not make it onto the wire no response is coming, and the call is no
    /// longer tracked.
    pub fn call_sent(&mut self, id: &str, sent: Waited<Result<(), Error>>) -> (result: Result<
        Option<Duration>,
        Error,
    >)
        requires
            old(self).wf(),
        ensures
            final(self).wf(),
            (final(self)@, error::outcome(result)) == old(self)@.call_sent(id@, sent),
    {
        match timeout(sent) {
            Ok(()) => Ok(self.inner.opts().deadline()),
            Err(error) => {
                self.inner.remove_call(id);
                Err(error)
            },
        }
    }

    /// Ends the wait for the response of a call. `None` tells that the caller was woken without
    /// one.
    ///
    /// Where the deadline has passed the call is no longer tracked, so that a late response is
    /// discarded.
    pub fn call_replied(&mut self, id: &str, reply: Waited<Option<serde_json::Value>>) -> (result:
        Result<serde_json::Value, Error>)
        requires
            old(self).wf(),
        ensures
            final(self).wf(),
            final(self)@ == old(self)@.call_replied(id@, reply).0,
            match result {
                Ok(values) => old(self)@.call_replied(id@, reply).1 == Ok::<Json, ErrorView>(
                    json::json_of(values),
                ),
                Err(error) => old(self)@.call_replied(id@, reply).1 == Err::<Json, ErrorView>(
                    error@,
                ),
            },
    {
        match reply {
            Waited::Done(Some(values)) => Ok(values),
            Waited::Done(None) => Err(
                Error::Unexpected(
                    "Connection was reset while waiting for a service response: channel closed".to_owned(),
                ),
            ),
            Waited::Elapsed => {
                self.inner.remove_call(id);
                Err(Error::Timeout("Service call timed out: Elapsed(())".to_owned()))
            },
        }
    }

    /// Advertises a service whose callback has number `callback`, and hands back the request to be
    /// sent.
    pub fn advertise_service(&mut self, service: &str, service_type: &str, callback: u64) -> (result:
        Result<Frame, Error>)
        requires
            old(self).wf(),
        ensures
            final(self).wf(),
            (final(self)@, error::viewed(result)) == old(self)@.advertise_service(
                service@,
                service_type@,
                callback,
            ),
    {
        match self.check_for_disconnect() {
            Ok(()) => {},
            Err(error) => return Err(error),
        }
        if self.inner.has_service(service) {
            return Err(
                Error::Unexpected(
                    "roslibrust does not support re-advertising a service without first dropping the previous Service".to_owned(),
                ),
            );
        }
        self.inner.add_service(service, service_type, callback);
        Ok(
            Frame::AdvertiseService {
                service: service.to_owned(),
                service_type: service_type.to_owned(),
            },
        )
    }

    /// Creates a service client that can be used to repeatedly call a service.
    pub fn service_client(&self, service: &str) -> (result: Result<ServiceClient, Error>)
        ensures
            result is Ok,
            result->Ok_0.service@ == service@,
    {
        Ok(ServiceClient { service: service.to_owned() })
    }

    /// Removes a service, and hands back the number of its callback and the request to be sent.
    /// The request is sent whether the service was found or not.
    pub fn unadvertise_service(&mut self, service: &str) -> (result: (Option<u64>, Frame))
        requires
            old(self).wf(),
        ensures
            final(self).wf(),
            final(self)@ == old(self)@.unadvertise_service(service@),
            result.0 == service::callback_of(
                table::found(old(self)@.client.services, service@),
            ),
            result.1@ == (FrameView::UnadvertiseService { service: service@ }),
    {
        let callback = self.inner.remove_service(service);
        (callback, Frame::UnadvertiseService { service: service.to_owned() })
    }

    /// Removes a publisher, and hands back the request to be sent.
    pub fn unadvertise(&mut self, topic_name: &str) -> (frame: Frame)
        requires
            old(self).wf(),
        ensures
            final(self).wf(),
            final(self)@ == old(self)@.unadvertise(topic_name@),
            frame@ == (FrameView::Unadvertise { topic: topic_name@ }),
    {
        self.inner.remove_publisher(topic_name);
        Frame::Unadvertise { topic: topic_name.to_owned() }
    }

    /// Removes a subscriber. If it is the last one for its topic, a request is to be sent.
    pub fn unsubscribe(&mut self, topic_name: &str, id: u128) -> (result: (Removal, Option<Frame>))
        requires
            old(self).wf(),
        ensures
            final(self).wf(),
            (final(self)@, result.0) == old(self)@.unsubscribe(topic_name@, id),
            match result.1 {
                Some(frame) => {
                    &&& result.0 is Last
                    &&& frame@ == FrameView::Unsubscribe { topic: topic_name@ }
                },
                None => !(result.0 is Last),
            },
    {
        let removal = self.inner.remove_handle(topic_name, id);
        match removal {
            Removal::Last => (removal, Some(Frame::Unsubscribe { topic: topic_name.to_owned() })),
            _ => (removal, None),
        }
    }
}

} // verus!
