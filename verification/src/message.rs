//! The operations of the protocol, and what is read from the wire.
use crate::json::{self, Json, from_str, get, null, to_text};
use vstd::prelude::*;

verus! {

/// The characters of an optional string.
pub open spec fn text_of(text: Option<String>) -> Option<Seq<char>> {
    match text {
        Some(text) => Some(text@),
        None => None,
    }
}

/// The operations of the rosbridge protocol.
#[derive(Debug, Clone, Copy, PartialEq, Eq, Structural)]
pub enum Ops {
    Fragment,
    Png,
    SetLevel,
    Status,
    Auth,
    Advertise,
    Unadvertise,
    Publish,
    Subscribe,
    Unsubscribe,
    AdvertiseService,
    UnadvertiseService,
    CallService,
    ServiceResponse,
}

/// The name of an operation on the wire.
pub open spec fn op_name(op: Ops) -> Seq<char> {
    match op {
        Ops::Fragment => "fragment"@,
        Ops::Png => "png"@,
        Ops::SetLevel => "set_level"@,
        Ops::Status => "status"@,
        Ops::Auth => "auth"@,
        Ops::Advertise => "advertise"@,
        Ops::Unadvertise => "unadvertise"@,
        Ops::Publish => "publish"@,
        Ops::Subscribe => "subscribe"@,
        Ops::Unsubscribe => "unsubscribe"@,
        Ops::AdvertiseService => "advertise_service"@,
        Ops::UnadvertiseService => "unadvertise_service"@,
        Ops::CallService => "call_service"@,
        Ops::ServiceResponse => "service_response"@,
    }
}

/// The operation with this name on the wire, if there is one.
pub open spec fn op_named(name: Seq<char>) -> Option<Ops> {
    if exists|op: Ops| #[trigger] op_name(op) == name {
        Some(choose|op: Ops| #[trigger] op_name(op) == name)
    } else {
        None
    }
}

impl Ops {
    /// The name of this operation on the wire.
    pub fn name(&self) -> (name: &'static str)
        ensures
            name@ == op_name(*self),
    {
        match self {
            Ops::Fragment => "fragment",
            Ops::Png => "png",
            Ops::SetLevel => "set_level",
            Ops::Status => "status",
            Ops::Auth => "auth",
            Ops::Advertise => "advertise",
            Ops::Unadvertise => "unadvertise",
            Ops::Publish => "publish",
            Ops::Subscribe => "subscribe",
            Ops::Unsubscribe => "unsubscribe",
            Ops::AdvertiseService => "advertise_service",
            Ops::UnadvertiseService => "unadvertise_service",
            Ops::CallService => "call_service",
            Ops::ServiceResponse => "service_response",
        }
    }

    /// The operation with this name on the wire.
    pub fn from_name(name: &str) -> (op: Option<Ops>)
        ensures
            match op {
                Some(op) => op_name(op) == name@,
                None => forall|op: Ops| #[trigger] op_name(op) != name@,
            },
            op == op_named(name@),
    {
        let name: String = name.to_owned();
        let op = if name == "publish".to_owned() {
            Some(Ops::Publish)
        } else if name == "service_response".to_owned() {
            Some(Ops::ServiceResponse)
        } else if name == "call_service".to_owned() {
            Some(Ops::CallService)
        } else if name == "fragment".to_owned() {
            Some(Ops::Fragment)
        } else if name == "png".to_owned() {
            Some(Ops::Png)
        } else if name == "set_level".to_owned() {
            Some(Ops::SetLevel)
        } else if name == "status".to_owned() {
            Some(Ops::Status)
        } else if name == "auth".to_owned() {
            Some(Ops::Auth)
        } else if name == "advertise".to_owned() {
            Some(Ops::Advertise)
        } else if name == "unadvertise".to_owned() {
            Some(Ops::Unadvertise)
        } else if name == "subscribe".to_owned() {
            Some(Ops::Subscribe)
        } else if name == "unsubscribe".to_owned() {
            Some(Ops::Unsubscribe)
        } else if name == "advertise_service".to_owned() {
            Some(Ops::AdvertiseService)
        } else if name == "unadvertise_service".to_owned() {
            Some(Ops::UnadvertiseService)
        } else {
            None
        };
        proof {
            match op {
                Some(op) => op_names_are_read_back(op),
                None => {},
            }
        }
        op
    }
}

/// No two operations have the same name.
pub proof fn op_names_are_distinct(a: Ops, b: Ops)
    requires
        op_name(a) == op_name(b),
    ensures
        a == b,
{
    reveal_strlit("publish");
    reveal_strlit("service_response");
    reveal_strlit("call_service");
    reveal_strlit("fragment");
    reveal_strlit("png");
    reveal_strlit("set_level");
    reveal_strlit("status");
    reveal_strlit("auth");
    reveal_strlit("advertise");
    reveal_strlit("unadvertise");
    reveal_strlit("subscribe");
    reveal_strlit("unsubscribe");
    reveal_strlit("advertise_service");
    reveal_strlit("unadvertise_service");
    assert("publish"@.len() == 7);
    assert("service_response"@.len() == 16);
    assert("call_service"@.len() == 12);
    assert("fragment"@.len() == 8);
    assert("png"@.len() == 3);
    assert("set_level"@.len() == 9);
    assert("status"@.len() == 6);
    assert("auth"@.len() == 4);
    assert("advertise"@.len() == 9);
    assert("unadvertise"@.len() == 11);
    assert("subscribe"@.len() == 9);
    assert("unsubscribe"@.len() == 11);
    assert("advertise_service"@.len() == 17);
    assert("unadvertise_service"@.len() == 19);
    // Names of the same length differ within their first three characters.
    assert("advertise"@[1] == 'd' && "set_level"@[1] == 'e' && "subscribe"@[1] == 'u');
    assert("unadvertise"@[2] == 'a' && "unsubscribe"@[2] == 's');
}

/// Reading the name of an operation gives that operation back.
pub proof fn op_names_are_read_back(op: Ops)
    ensures
        op_named(op_name(op)) == Some(op),
{
    op_names_are_distinct(op, choose|other: Ops| #[trigger] op_name(other) == op_name(op));
}

/// A message from the websocket.
#[derive(Debug)]
pub enum Message {
    Text(String),
    Binary(Vec<u8>),
    Ping(Vec<u8>),
    Pong(Vec<u8>),
    /// The server closes the connection. The text describes its close frame.
    Close(String),
    /// A raw websocket frame.
    Frame,
}

/// A text message that names an operation, with what the client reads of it.
#[derive(Debug)]
pub struct Incoming {
    pub op: Ops,
    /// The members of these names, where they are strings.
    pub topic: Option<String>,
    pub service: Option<String>,
    pub id: Option<String>,
    /// The members of these names, as JSON text.
    pub msg: Option<String>,
    pub args: Option<String>,
    /// The member of this name, null where there is none.
    pub values: serde_json::Value,
}

/// What an [`Incoming`] holds.
pub struct IncomingView {
    pub op: Ops,
    pub topic: Option<Seq<char>>,
    pub service: Option<Seq<char>>,
    pub id: Option<Seq<char>>,
    pub msg: Option<Seq<char>>,
    pub args: Option<Seq<char>>,
    pub values: Json,
}

impl View for Incoming {
    type V = IncomingView;

    open spec fn view(&self) -> IncomingView {
        IncomingView {
            op: self.op,
            topic: text_of(self.topic),
            service: text_of(self.service),
            id: text_of(self.id),
            msg: text_of(self.msg),
            args: text_of(self.args),
            values: json::json_of(self.values),
        }
    }
}

/// Why a message is ignored.
#[derive(Debug, Clone, Copy, PartialEq, Eq, Structural)]
pub enum Ignored {
    /// The text is not JSON.
    MalformedJson,
    /// There is no string `op`.
    MissingOp,
    /// The `op` is none of the protocol.
    UnknownOp,
    /// The `op` is none that a client handles.
    UnhandledOp,
    /// A publish without a string `topic`.
    MissingTopic,
    /// A publish on a topic that was never subscribed to.
    NotSubscribed,
    /// A publish without a `msg`.
    MissingMsg,
    /// A service response without a string `id`.
    MissingCallId,
    /// A service response to no call in flight.
    UnknownCall,
    /// A service call without a string `service`.
    MissingService,
    /// A service call to a service that is not advertised.
    NotAdvertised,
    /// A service call without `args`.
    MissingArgs,
    /// The websocket answers pings by itself.
    Ping,
    /// Neither text nor a control message.
    NotText,
}

/// What a JSON document is as a message.
pub open spec fn incoming_of(document: Json) -> Result<IncomingView, Ignored> {
    match json::json_string_member(document, "op"@) {
        None => Err(Ignored::MissingOp),
        Some(name) => match op_named(name) {
            None => Err(Ignored::UnknownOp),
            Some(op) => Ok(
                IncomingView {
                    op,
                    topic: json::json_string_member(document, "topic"@),
                    service: json::json_string_member(document, "service"@),
                    id: json::json_string_member(document, "id"@),
                    msg: json::json_text_member(document, "msg"@),
                    args: json::json_text_member(document, "args"@),
                    values: match json::json_member(document, "values"@) {
                        Some(values) => values,
                        None => Json::Null,
                    },
                },
            ),
        },
    }
}

/// What a text is as a message.
pub open spec fn incoming(text: Seq<char>) -> Result<IncomingView, Ignored> {
    match json::parsed_json(text) {
        None => Err(Ignored::MalformedJson),
        Some(document) => incoming_of(document),
    }
}

fn string_member(document: &serde_json::Value, key: &str) -> (text: Option<String>)
    ensures
        text_of(text) == json::json_string_member(json::json_of(*document), key@),
{
    match get(document, key) {
        Some(found) => match found.as_str() {
            Some(text) => Some(text.to_owned()),
            None => None,
        },
        None => None,
    }
}

fn text_member(document: &serde_json::Value, key: &str) -> (text: Option<String>)
    ensures
        text_of(text) == json::json_text_member(json::json_of(*document), key@),
{
    match get(document, key) {
        Some(found) => Some(to_text(found)),
        None => None,
    }
}

impl Incoming {
    /// Reads a text message.
    pub fn decode(text: &str) -> (result: Result<Incoming, Ignored>)
        ensures
            match result {
                Ok(message) => incoming(text@) == Ok::<IncomingView, Ignored>(message@),
                Err(reason) => incoming(text@) == Err::<IncomingView, Ignored>(reason),
            },
    {
        match from_str(text) {
            Some(document) => Incoming::from_document(&document),
            None => Err(Ignored::MalformedJson),
        }
    }

    /// Reads a JSON document as a message.
    fn from_document(document: &serde_json::Value) -> (result: Result<Incoming, Ignored>)
        ensures
            match result {
                Ok(message) => incoming_of(json::json_of(*document)) == Ok::<IncomingView, Ignored>(
                    message@,
                ),
                Err(reason) => incoming_of(json::json_of(*document)) == Err::<IncomingView, Ignored>(
                    reason,
                ),
            },
    {
        let op = match string_member(document, "op") {
            Some(name) => match Ops::from_name(name.as_str()) {
                Some(op) => op,
                None => return Err(Ignored::UnknownOp),
            },
            None => return Err(Ignored::MissingOp),
        };
        let values = match get(document, "values") {
            Some(values) => values.clone(),
            None => null(),
        };
        Ok(
            Incoming {
                op,
                topic: string_member(document, "topic"),
                service: string_member(document, "service"),
                id: string_member(document, "id"),
                msg: text_member(document, "msg"),
                args: text_member(document, "args"),
                values,
            },
        )
    }
}

} // verus!
