//! How the protocol looks on the wire: what each frame is written as, and what each text is read
//! as.
use crate::client::{Dispatch, DispatchView};
use crate::error::{self, Error, ErrorView};
use crate::frame::{self, Frame, FrameView, Served};
use crate::handle::{ClientHandle, ServiceCall};
use crate::json::{self, Json};
use crate::message::{self, Ignored, Incoming, IncomingView, Ops};
use vstd::prelude::*;

verus! {

/// Each operation has the name that the protocol gives it.
pub proof fn operations_have_their_names()
    ensures
        message::op_name(Ops::Fragment) == "fragment"@,
        message::op_name(Ops::Png) == "png"@,
        message::op_name(Ops::SetLevel) == "set_level"@,
        message::op_name(Ops::Status) == "status"@,
        message::op_name(Ops::Auth) == "auth"@,
        message::op_name(Ops::Advertise) == "advertise"@,
        message::op_name(Ops::Unadvertise) == "unadvertise"@,
        message::op_name(Ops::Publish) == "publish"@,
        message::op_name(Ops::Subscribe) == "subscribe"@,
        message::op_name(Ops::Unsubscribe) == "unsubscribe"@,
        message::op_name(Ops::AdvertiseService) == "advertise_service"@,
        message::op_name(Ops::UnadvertiseService) == "unadvertise_service"@,
        message::op_name(Ops::CallService) == "call_service"@,
        message::op_name(Ops::ServiceResponse) == "service_response"@,
{
}

/// A name is read as an operation exactly if it is the name of that operation.
pub proof fn only_its_name_is_read_as_an_operation(name: Seq<char>, op: Ops)
    ensures
        message::op_named(name) == Some(op) <==> message::op_name(op) == name,
        message::op_named(name) is None <==> forall|any: Ops| #[trigger]
            message::op_name(any) != name,
{
    if message::op_name(op) == name {
        message::op_names_are_read_back(op);
    }
}

/// Members are what an object holds, and only an object holds any.
pub proof fn members_are_looked_up(members: Map<Seq<char>, Json>, value: Json, key: Seq<char>)
    ensures
        members.contains_key(key) ==> json::json_member(Json::Object(members), key) == Some(
            members[key],
        ),
        !members.contains_key(key) ==> json::json_member(Json::Object(members), key) is None,
        !(value is Object) ==> json::json_member(value, key) is None,
        value is Text ==> json::json_string(value) == Some(value->Text_0),
        !(value is Text) ==> json::json_string(value) is None,
{
}

/// An object whose `op` is the name of an operation is read with all of its members: `topic`,
/// `service` and `id` exactly where they are strings, `msg` and `args` as JSON text exactly where
/// they are there, and `values` as they are, or null.
pub proof fn object_is_read_with_its_members(members: Map<Seq<char>, Json>, op: Ops)
    requires
        members.contains_key("op"@),
        members["op"@] == Json::Text(message::op_name(op)),
    ensures
        ({
            let text_under = |key: Seq<char>| members.contains_key(key) && members[key] is Text;
            &&& message::incoming_of(Json::Object(members)) matches Ok(data)
            &&& data.op == op
            &&& text_under("topic"@) ==> data.topic == Some(members["topic"@]->Text_0)
            &&& !text_under("topic"@) ==> data.topic is None
            &&& text_under("service"@) ==> data.service == Some(members["service"@]->Text_0)
            &&& !text_under("service"@) ==> data.service is None
            &&& text_under("id"@) ==> data.id == Some(members["id"@]->Text_0)
            &&& !text_under("id"@) ==> data.id is None
            &&& members.contains_key("msg"@) ==> data.msg == Some(json::json_text(members["msg"@]))
            &&& !members.contains_key("msg"@) ==> data.msg is None
            &&& members.contains_key("args"@) ==> data.args == Some(
                json::json_text(members["args"@]),
            )
            &&& !members.contains_key("args"@) ==> data.args is None
            &&& members.contains_key("values"@) ==> data.values == members["values"@]
            &&& !members.contains_key("values"@) ==> data.values == Json::Null
        }),
{
    message::op_names_are_read_back(op);
}

/// A text is read exactly if it is JSON and its `op` is the name of an operation. Otherwise it is
/// told apart what is wrong with it.
pub proof fn other_texts_are_not_read(text: Seq<char>, document: Json)
    ensures
        json::parsed_json(text) is None ==> message::incoming(text) == Err::<IncomingView, Ignored>(
            Ignored::MalformedJson,
        ),
        json::parsed_json(text) == Some(document) ==> message::incoming(text)
            == message::incoming_of(document),
        match document {
            Json::Object(members) => {
                let named = members.contains_key("op"@) && members["op"@] is Text;
                let name = members["op"@]->Text_0;
                let read = message::incoming_of(document);
                &&& !named ==> read == Err::<IncomingView, Ignored>(Ignored::MissingOp)
                &&& named && (forall|op: Ops| #[trigger] message::op_name(op) != name) ==> read
                    == Err::<IncomingView, Ignored>(Ignored::UnknownOp)
                &&& named && (exists|op: Ops| #[trigger] message::op_name(op) == name) ==> read is Ok
            },
            _ => message::incoming_of(document) == Err::<IncomingView, Ignored>(Ignored::MissingOp),
        },
{
}

/// A frame is written as an object with the name of its operation under `op`, each of its parts
/// under the name that the protocol gives it, and nothing else.
pub proof fn frames_are_written_with_all_their_parts(frame: FrameView)
    ensures
        ({
            &&& frame::frame_json(frame) matches Json::Object(members)
            &&& members.contains_key("op"@)
            &&& match frame {
                FrameView::Subscribe { topic, topic_type } => {
                    &&& members.dom() == set!["op"@, "topic"@, "type"@]
                    &&& members["op"@] == Json::Text("subscribe"@)
                    &&& members["topic"@] == Json::Text(topic)
                    &&& members["type"@] == Json::Text(topic_type)
                },
                FrameView::Unsubscribe { topic } => {
                    &&& members.dom() == set!["op"@, "topic"@]
                    &&& members["op"@] == Json::Text("unsubscribe"@)
                    &&& members["topic"@] == Json::Text(topic)
                },
                FrameView::Advertise { topic, topic_type } => {
                    &&& members.dom() == set!["op"@, "topic"@, "type"@]
                    &&& members["op"@] == Json::Text("advertise"@)
                    &&& members["topic"@] == Json::Text(topic)
                    &&& members["type"@] == Json::Text(topic_type)
                },
                FrameView::Unadvertise { topic } => {
                    &&& members.dom() == set!["op"@, "topic"@]
                    &&& members["op"@] == Json::Text("unadvertise"@)
                    &&& members["topic"@] == Json::Text(topic)
                },
                FrameView::Publish { topic, msg } => {
                    &&& members.dom() == set!["op"@, "topic"@, "msg"@]
                    &&& members["op"@] == Json::Text("publish"@)
                    &&& members["topic"@] == Json::Text(topic)
                    &&& members["msg"@] == msg
                },
                FrameView::AdvertiseService { service, service_type } => {
                    &&& members.dom() == set!["op"@, "service"@, "type"@]
                    &&& members["op"@] == Json::Text("advertise_service"@)
                    &&& members["service"@] == Json::Text(service)
                    &&& members["type"@] == Json::Text(service_type)
                },
                FrameView::UnadvertiseService { service } => {
                    &&& members.dom() == set!["op"@, "service"@]
                    &&& members["op"@] == Json::Text("unadvertise_service"@)
                    &&& members["service"@] == Json::Text(service)
                },
                FrameView::CallService { service, id, args } => {
                    &&& members.dom() == set!["op"@, "service"@, "id"@, "args"@]
                    &&& members["op"@] == Json::Text("call_service"@)
                    &&& members["service"@] == Json::Text(service)
                    &&& members["id"@] == Json::Text(id)
                    &&& members["args"@] == args
                },
                FrameView::ServiceResponse { service, id, result, values } => {
                    &&& members.dom() == if id is Some {
                        set!["op"@, "service"@, "result"@, "values"@, "id"@]
                    } else {
                        set!["op"@, "service"@, "result"@, "values"@]
                    }
                    &&& members["op"@] == Json::Text("service_response"@)
                    &&& members["service"@] == Json::Text(service)
                    &&& members["result"@] == Json::Bool(result)
                    &&& members["values"@] == values
                    &&& id is Some ==> members["id"@] == Json::Text(id->0)
                },
            }
        }),
{
    frame::lemma_member_names_are_distinct();
    let members = frame::frame_json(frame)->Object_0;
    match frame {
        FrameView::Subscribe { .. } | FrameView::Advertise { .. } => {
            assert(members.dom() =~= set!["op"@, "topic"@, "type"@]);
        },
        FrameView::Unsubscribe { .. } | FrameView::Unadvertise { .. } => {
            assert(members.dom() =~= set!["op"@, "topic"@]);
        },
        FrameView::Publish { .. } => {
            assert(members.dom() =~= set!["op"@, "topic"@, "msg"@]);
        },
        FrameView::AdvertiseService { .. } => {
            assert(members.dom() =~= set!["op"@, "service"@, "type"@]);
        },
        FrameView::UnadvertiseService { .. } => {
            assert(members.dom() =~= set!["op"@, "service"@]);
        },
        FrameView::CallService { .. } => {
            assert(members.dom() =~= set!["op"@, "service"@, "id"@, "args"@]);
        },
        FrameView::ServiceResponse { id, .. } => {
            if id is Some {
                assert(members.dom() =~= set!["op"@, "service"@, "result"@, "values"@, "id"@]);
            } else {
                assert(members.dom() =~= set!["op"@, "service"@, "result"@, "values"@]);
            }
        },
    }
}

/// The operation of a frame is the one whose name the frame is written with, so that different
/// kinds of frames never look alike.
pub proof fn frames_are_written_under_their_operation(frame: FrameView)
    ensures
        frame::frame_json(frame) matches Json::Object(members) && members.contains_key("op"@)
            && members["op"@] == Json::Text(message::op_name(frame::frame_op(frame))),
        frame is Subscribe <==> frame::frame_op(frame) == Ops::Subscribe,
        frame is Unsubscribe <==> frame::frame_op(frame) == Ops::Unsubscribe,
        frame is Advertise <==> frame::frame_op(frame) == Ops::Advertise,
        frame is Unadvertise <==> frame::frame_op(frame) == Ops::Unadvertise,
        frame is Publish <==> frame::frame_op(frame) == Ops::Publish,
        frame is AdvertiseService <==> frame::frame_op(frame) == Ops::AdvertiseService,
        frame is UnadvertiseService <==> frame::frame_op(frame) == Ops::UnadvertiseService,
        frame is CallService <==> frame::frame_op(frame) == Ops::CallService,
        frame is ServiceResponse <==> frame::frame_op(frame) == Ops::ServiceResponse,
{
    frame::lemma_member_names_are_distinct();
}

/// A callback that returned is reported as a success with its response, one that failed as a
/// failure with its reason, and one that panicked as a failure with that said in front of it.
pub proof fn callbacks_are_reported_as_they_ended(
    response: serde_json::Value,
    reason: String,
)
    ensures
        frame::served_values(Served::Returned(response)) == (true, json::json_of(response)),
        frame::served_values(Served::Failed(reason)) == (false, Json::Text(reason@)),
        frame::served_values(Served::Panicked(reason)) == (
            false,
            Json::Text("Service callback panicked: "@ + reason@),
        ),
{
}

/// What a frame says is what its fields hold.
pub proof fn frames_say_what_they_hold(
    name: String,
    kind: String,
    id: Option<String>,
    result: bool,
    value: serde_json::Value,
    text: String,
)
    ensures
        (Frame::Subscribe { topic: name, topic_type: kind })@ == (FrameView::Subscribe {
            topic: name@,
            topic_type: kind@,
        }),
        (Frame::Unsubscribe { topic: name })@ == (FrameView::Unsubscribe { topic: name@ }),
        (Frame::Advertise { topic: name, topic_type: kind })@ == (FrameView::Advertise {
            topic: name@,
            topic_type: kind@,
        }),
        (Frame::Unadvertise { topic: name })@ == (FrameView::Unadvertise { topic: name@ }),
        (Frame::Publish { topic: name, msg: value })@ == (FrameView::Publish {
            topic: name@,
            msg: json::json_of(value),
        }),
        (Frame::AdvertiseService { service: name, service_type: kind })@ == (
        FrameView::AdvertiseService { service: name@, service_type: kind@ }),
        (Frame::UnadvertiseService { service: name })@ == (FrameView::UnadvertiseService {
            service: name@,
        }),
        (Frame::CallService { service: name, id: text, args: value })@ == (FrameView::CallService {
            service: name@,
            id: text@,
            args: json::json_of(value),
        }),
        id is None ==> (Frame::ServiceResponse { service: name, id, result, values: value })@ == (
        FrameView::ServiceResponse {
            service: name@,
            id: None,
            result,
            values: json::json_of(value),
        }),
        id is Some ==> (Frame::ServiceResponse { service: name, id, result, values: value })@ == (
        FrameView::ServiceResponse {
            service: name@,
            id: Some(id->0@),
            result,
            values: json::json_of(value),
        }),
{
}

/// What a dispatch says is what its fields hold: a delivery goes to the subscribers that it lists,
/// and one that is once each lists none twice.
pub proof fn dispatches_say_what_they_hold(
    reason: Ignored,
    handles: Vec<u128>,
    msg: String,
    number: u64,
    values: serde_json::Value,
    service: String,
    id: Option<String>,
)
    ensures
        Dispatch::Ignored(reason)@ == DispatchView::Ignored(reason),
        Dispatch::Pong@ == DispatchView::Pong,
        ({
            let delivery = Dispatch::Deliver { handles, msg };
            &&& delivery@ matches DispatchView::Deliver { handles: to, msg: text }
            &&& text == msg@
            &&& forall|id: u128| #[trigger] to.contains(id) <==> handles@.contains(id)
            &&& delivery.once_each() <==> handles@.no_duplicates()
        }),
        (Dispatch::Respond { call: number, values })@ == (DispatchView::Respond {
            call: number,
            values: json::json_of(values),
        }),
        ({
            let serve = Dispatch::Serve { callback: number, service, id, request: msg };
            &&& serve@ matches DispatchView::Serve { callback, service: name, id: under, request }
            &&& callback == number
            &&& name == service@
            &&& request == msg@
            &&& id is None ==> under is None
            &&& id is Some ==> under == Some(id->0@)
        }),
{
}

/// What a read message says is what its fields hold.
pub proof fn messages_say_what_they_hold(data: Incoming)
    ensures
        data@.op == data.op,
        data@.values == json::json_of(data.values),
        data.topic is None ==> data@.topic is None,
        data.topic is Some ==> data@.topic == Some(data.topic->0@),
        data.service is None ==> data@.service is None,
        data.service is Some ==> data@.service == Some(data.service->0@),
        data.id is None ==> data@.id is None,
        data.id is Some ==> data@.id == Some(data.id->0@),
        data.msg is None ==> data@.msg is None,
        data.msg is Some ==> data@.msg == Some(data.msg->0@),
        data.args is None ==> data@.args is None,
        data.args is Some ==> data@.args == Some(data.args->0@),
{
}

/// An error keeps its kind and its text, and a result keeps its value or its error.
pub proof fn results_say_what_they_hold<T>(
    value: T,
    frame: Frame,
    error: Error,
    text: String,
)
    ensures
        Error::Disconnected@ == ErrorView::Disconnected,
        Error::Timeout(text)@ == ErrorView::Timeout(text@),
        Error::IoError(text)@ == ErrorView::IoError(text@),
        Error::Unexpected(text)@ == ErrorView::Unexpected(text@),
        Error::ServerError(text)@ == ErrorView::ServerError(text@),
        Error::SerializationError(text)@ == ErrorView::SerializationError(text@),
        error::outcome(Ok::<T, Error>(value)) == Ok::<T, ErrorView>(value),
        error::outcome(Err::<T, Error>(error)) == Err::<T, ErrorView>(error@),
        error::viewed(Ok::<Frame, Error>(frame)) == Ok::<FrameView, ErrorView>(frame@),
        error::viewed(Err::<Frame, Error>(error)) == Err::<FrameView, ErrorView>(error@),
        frame::requested(Ok(Some(frame))) == Ok::<Option<FrameView>, ErrorView>(Some(frame@)),
        frame::requested(Ok(None)) == Ok::<Option<FrameView>, ErrorView>(None),
        frame::requested(Err(error)) == Err::<Option<FrameView>, ErrorView>(error@),
{
}

/// Likewise for the results that hold a dispatch, a call or a handle.
pub proof fn other_results_say_what_they_hold(
    dispatch: Dispatch,
    call: ServiceCall,
    handle: ClientHandle,
    error: Error,
)
    ensures
        error::viewed(Ok::<Dispatch, Error>(dispatch)) == Ok::<DispatchView, ErrorView>(dispatch@),
        error::viewed(Err::<Dispatch, Error>(error)) == Err::<DispatchView, ErrorView>(error@),
        error::viewed(Ok::<ServiceCall, Error>(call)) matches Ok(said) && said == call@,
        error::viewed(Err::<ServiceCall, Error>(error)) matches Err(said) && said == error@,
        call@.id == call.id@,
        call@.frame == call.frame@,
        call@.replaced == call.replaced,
        handle@.connected == !handle.is_disconnected,
        handle@.client == handle.inner@,
{
}

} // verus!
