//! What the client puts on the wire.
use crate::error::{Error, ErrorView};
use crate::json::{self, Json, bool_value, object_value, string_value, to_text};
use crate::message::{self, Ops};
use vstd::prelude::*;
use vstd::string::*;

verus! {

/// A request or response to be sent to rosbridge.
#[derive(Debug)]
#[allow(inconsistent_fields)]
pub enum Frame {
    Subscribe { topic: String, topic_type: String },
    Unsubscribe { topic: String },
    Advertise { topic: String, topic_type: String },
    Unadvertise { topic: String },
    Publish { topic: String, msg: serde_json::Value },
    AdvertiseService { service: String, service_type: String },
    UnadvertiseService { service: String },
    CallService { service: String, id: String, args: serde_json::Value },
    ServiceResponse {
        service: String,
        id: Option<String>,
        result: bool,
        values: serde_json::Value,
    },
}

/// What a [`Frame`] says.
#[allow(inconsistent_fields)]
pub enum FrameView {
    Subscribe { topic: Seq<char>, topic_type: Seq<char> },
    Unsubscribe { topic: Seq<char> },
    Advertise { topic: Seq<char>, topic_type: Seq<char> },
    Unadvertise { topic: Seq<char> },
    Publish { topic: Seq<char>, msg: Json },
    AdvertiseService { service: Seq<char>, service_type: Seq<char> },
    UnadvertiseService { service: Seq<char> },
    CallService { service: Seq<char>, id: Seq<char>, args: Json },
    ServiceResponse { service: Seq<char>, id: Option<Seq<char>>, result: bool, values: Json },
}

impl View for Frame {
    type V = FrameView;

    open spec fn view(&self) -> FrameView {
        match *self {
            Frame::Subscribe { topic, topic_type } => FrameView::Subscribe {
                topic: topic@,
                topic_type: topic_type@,
            },
            Frame::Unsubscribe { topic } => FrameView::Unsubscribe { topic: topic@ },
            Frame::Advertise { topic, topic_type } => FrameView::Advertise {
                topic: topic@,
                topic_type: topic_type@,
            },
            Frame::Unadvertise { topic } => FrameView::Unadvertise { topic: topic@ },
            Frame::Publish { topic, msg } => FrameView::Publish {
                topic: topic@,
                msg: json::json_of(msg),
            },
            Frame::AdvertiseService { service, service_type } => FrameView::AdvertiseService {
                service: service@,
                service_type: service_type@,
            },
            Frame::UnadvertiseService { service } => FrameView::UnadvertiseService {
                service: service@,
            },
            Frame::CallService { service, id, args } => FrameView::CallService {
                service: service@,
                id: id@,
                args: json::json_of(args),
            },
            Frame::ServiceResponse { service, id, result, values } => FrameView::ServiceResponse {
                service: service@,
                id: message::text_of(id),
                result,
                values: json::json_of(values),
            },
        }
    }
}

/// What an operation says that may have something to send.
pub open spec fn requested(result: Result<Option<Frame>, Error>) -> Result<
    Option<FrameView>,
    ErrorView,
> {
    match result {
        Ok(Some(frame)) => Ok(Some(frame@)),
        Ok(None) => Ok(None),
        Err(error) => Err(error@),
    }
}

/// The operation that a frame asks for.
pub open spec fn frame_op(frame: FrameView) -> Ops {
    match frame {
        FrameView::Subscribe { .. } => Ops::Subscribe,
        FrameView::Unsubscribe { .. } => Ops::Unsubscribe,
        FrameView::Advertise { .. } => Ops::Advertise,
        FrameView::Unadvertise { .. } => Ops::Unadvertise,
        FrameView::Publish { .. } => Ops::Publish,
        FrameView::AdvertiseService { .. } => Ops::AdvertiseService,
        FrameView::UnadvertiseService { .. } => Ops::UnadvertiseService,
        FrameView::CallService { .. } => Ops::CallService,
        FrameView::ServiceResponse { .. } => Ops::ServiceResponse,
    }
}

/// A frame as it stands on the wire: an object with the operation under `op`.
pub open spec fn frame_json(frame: FrameView) -> Json {
    let op = Json::Text(message::op_name(frame_op(frame)));
    match frame {
        FrameView::Subscribe { topic, topic_type } => Json::Object(
            map!["op"@ => op, "topic"@ => Json::Text(topic), "type"@ => Json::Text(topic_type)],
        ),
        FrameView::Unsubscribe { topic } => Json::Object(
            map!["op"@ => op, "topic"@ => Json::Text(topic)],
        ),
        FrameView::Advertise { topic, topic_type } => Json::Object(
            map!["op"@ => op, "topic"@ => Json::Text(topic), "type"@ => Json::Text(topic_type)],
        ),
        FrameView::Unadvertise { topic } => Json::Object(
            map!["op"@ => op, "topic"@ => Json::Text(topic)],
        ),
        FrameView::Publish { topic, msg } => Json::Object(
            map!["op"@ => op, "topic"@ => Json::Text(topic), "msg"@ => msg],
        ),
        FrameView::AdvertiseService { service, service_type } => Json::Object(
            map![
                "op"@ => op,
                "service"@ => Json::Text(service),
                "type"@ => Json::Text(service_type),
            ],
        ),
        FrameView::UnadvertiseService { service } => Json::Object(
            map!["op"@ => op, "service"@ => Json::Text(service)],
        ),
        FrameView::CallService { service, id, args } => Json::Object(
            map![
                "op"@ => op,
                "service"@ => Json::Text(service),
                "id"@ => Json::Text(id),
                "args"@ => args,
            ],
        ),
        FrameView::ServiceResponse { service, id, result, values } => {
            let members = map![
                "op"@ => op,
                "service"@ => Json::Text(service),
                "result"@ => Json::Bool(result),
                "values"@ => values,
            ];
            match id {
                Some(id) => Json::Object(members.insert("id"@, Json::Text(id))),
                None => Json::Object(members),
            }
        },
    }
}

/// The names of a frame's members differ in length or in their first character.
pub(crate) proof fn lemma_member_names_are_distinct()
    ensures
        "op"@.len() == 2 && "id"@.len() == 2 && "msg"@.len() == 3,
        "args"@.len() == 4 && "type"@.len() == 4 && "topic"@.len() == 5,
        "values"@.len() == 6 && "result"@.len() == 6 && "service"@.len() == 7,
        "op"@[0] == 'o' && "id"@[0] == 'i' && "args"@[0] == 'a' && "type"@[0] == 't',
        "values"@[0] == 'v' && "result"@[0] == 'r',
{
    reveal_strlit("op");
    reveal_strlit("id");
    reveal_strlit("msg");
    reveal_strlit("args");
    reveal_strlit("type");
    reveal_strlit("topic");
    reveal_strlit("values");
    reveal_strlit("result");
    reveal_strlit("service");
}

fn push_text(entries: &mut Vec<(String, serde_json::Value)>, key: &str, text: String)
    requires
        json::distinct_keys(old(entries)@),
        !json::json_members(old(entries)@).contains_key(key@),
    ensures
        json::distinct_keys(final(entries)@),
        json::json_members(final(entries)@) == json::json_members(old(entries)@).insert(
            key@,
            Json::Text(text@),
        ),
{
    push_value(entries, key, string_value(text));
}

fn push_value(
    entries: &mut Vec<(String, serde_json::Value)>,
    key: &str,
    value: serde_json::Value,
)
    requires
        json::distinct_keys(old(entries)@),
        !json::json_members(old(entries)@).contains_key(key@),
    ensures
        json::distinct_keys(final(entries)@),
        json::json_members(final(entries)@) == json::json_members(old(entries)@).insert(
            key@,
            json::json_of(value),
        ),
{
    entries.push((key.to_owned(), value));
    proof {
        let before = old(entries)@;
        assert(entries@.drop_last() =~= before);
        json::lemma_member_keys(before, key@);
        assert forall|i: int, j: int| 0 <= i < j < entries@.len() implies
            #[trigger] entries@[i].0@ != #[trigger] entries@[j].0@ by {
            assert(entries@[i] == before[i]);
            if j < before.len() {
                assert(entries@[j] == before[j]);
                assert(before[i].0@ != before[j].0@);
            } else {
                assert(before[i].0@ != key@);
            }
        }
    }
}

impl Frame {
    /// The text that is put on the wire.
    pub fn encode(self) -> (text: String)
        ensures
            text@ == json::json_text(frame_json(self@)),
    {
        proof {
            lemma_member_names_are_distinct();
        }
        let mut entries: Vec<(String, serde_json::Value)> = Vec::new();
        push_text(&mut entries, "op", self.op().name().to_owned());
        let ghost frame = self@;
        match self {
            Frame::Subscribe { topic, topic_type } => {
                push_text(&mut entries, "topic", topic);
                push_text(&mut entries, "type", topic_type);
            },
            Frame::Unsubscribe { topic } => {
                push_text(&mut entries, "topic", topic);
            },
            Frame::Advertise { topic, topic_type } => {
                push_text(&mut entries, "topic", topic);
                push_text(&mut entries, "type", topic_type);
            },
            Frame::Unadvertise { topic } => {
                push_text(&mut entries, "topic", topic);
            },
            Frame::Publish { topic, msg } => {
                push_text(&mut entries, "topic", topic);
                push_value(&mut entries, "msg", msg);
            },
            Frame::AdvertiseService { service, service_type } => {
                push_text(&mut entries, "service", service);
                push_text(&mut entries, "type", service_type);
            },
            Frame::UnadvertiseService { service } => {
                push_text(&mut entries, "service", service);
            },
            Frame::CallService { service, id, args } => {
                push_text(&mut entries, "service", service);
                push_text(&mut entries, "id", id);
                push_value(&mut entries, "args", args);
            },
            Frame::ServiceResponse { service, id, result, values } => {
                push_text(&mut entries, "service", service);
                push_value(&mut entries, "result", bool_value(result));
                push_value(&mut entries, "values", values);
                match id {
                    Some(id) => push_text(&mut entries, "id", id),
                    None => {},
                }
            },
        }
        assert(Json::Object(json::json_members(entries@)) == frame_json(frame));
        to_text(&object_value(entries))
    }

    /// The operation that this frame asks for.
    pub fn op(&self) -> (op: Ops)
        ensures
            op == frame_op(self@),
    {
        match self {
            Frame::Subscribe { .. } => Ops::Subscribe,
            Frame::Unsubscribe { .. } => Ops::Unsubscribe,
            Frame::Advertise { .. } => Ops::Advertise,
            Frame::Unadvertise { .. } => Ops::Unadvertise,
            Frame::Publish { .. } => Ops::Publish,
            Frame::AdvertiseService { .. } => Ops::AdvertiseService,
            Frame::UnadvertiseService { .. } => Ops::UnadvertiseService,
            Frame::CallService { .. } => Ops::CallService,
            Frame::ServiceResponse { .. } => Ops::ServiceResponse,
        }
    }
}

/// What came of running the callback of a service.
#[derive(Debug)]
pub enum Served {
    /// It returned this response.
    Returned(serde_json::Value),
    /// It failed for this reason.
    Failed(String),
    /// It panicked, as described here.
    Panicked(String),
}

/// Whether the callback succeeded, and the values that the response carries.
pub open spec fn served_values(served: Served) -> (bool, Json) {
    match served {
        Served::Returned(response) => (true, json::json_of(response)),
        Served::Failed(reason) => (false, Json::Text(reason@)),
        Served::Panicked(reason) => (false, Json::Text("Service callback panicked: "@ + reason@)),
    }
}

/// The response to a service call whose callback has been run: the callback's own response if it
/// returned one, and a failure that carries the reason otherwise.
pub fn service_response(service: String, id: Option<String>, served: Served) -> (frame: Frame)
    ensures
        frame@ == (FrameView::ServiceResponse {
            service: service@,
            id: message::text_of(id),
            result: served_values(served).0,
            values: served_values(served).1,
        }),
        frame matches Frame::ServiceResponse { service: to, id: under, result, values } && {
            &&& to@ == service@
            &&& under == id
            &&& result <==> served is Returned
            &&& match served {
                Served::Returned(response) => values == response,
                Served::Failed(reason) => json::json_of(values) == Json::Text(reason@),
                Served::Panicked(reason) => json::json_of(values) == Json::Text(
                    "Service callback panicked: "@ + reason@,
                ),
            }
        },
{
    match served {
        Served::Returned(response) => Frame::ServiceResponse {
            service,
            id,
            result: true,
            values: response,
        },
        Served::Failed(reason) => Frame::ServiceResponse {
            service,
            id,
            result: false,
            values: string_value(reason),
        },
        Served::Panicked(reason) => {
            let mut text = "Service callback panicked: ".to_owned();
            text.append(reason.as_str());
            Frame::ServiceResponse { service, id, result: false, values: string_value(text) }
        },
    }
}

/// The JSON of a frame is read as the frame it is: a publish with its topic and message, a service
/// call with its service, id and arguments, a service response with its service, id and values,
/// and any other frame with its operation.
pub proof fn sent_frames_are_read_back(frame: FrameView)
    ensures
        match frame {
            FrameView::Publish { topic, msg } => {
                &&& message::incoming_of(frame_json(frame)) matches Ok(data)
                &&& data.op == Ops::Publish
                &&& data.topic == Some(topic)
                &&& data.msg == Some(json::json_text(msg))
            },
            FrameView::CallService { service, id, args } => {
                &&& message::incoming_of(frame_json(frame)) matches Ok(data)
                &&& data.op == Ops::CallService
                &&& data.service == Some(service)
                &&& data.id == Some(id)
                &&& data.args == Some(json::json_text(args))
            },
            FrameView::ServiceResponse { service, id, result, values } => {
                &&& message::incoming_of(frame_json(frame)) matches Ok(data)
                &&& data.op == Ops::ServiceResponse
                &&& data.service == Some(service)
                &&& data.id == id
                &&& data.values == values
            },
            _ => message::incoming_of(frame_json(frame)) matches Ok(data) && data.op == frame_op(
                frame,
            ),
        },
{
    message::op_names_are_read_back(frame_op(frame));
    lemma_member_names_are_distinct();
}

} // verus!
