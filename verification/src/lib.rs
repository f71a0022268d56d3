//! The decisions of a rosbridge client, free of sockets, clocks and tasks.
//!
//! A [`ClientHandle`] tracks what one connection has advertised, subscribed to and called.
//! Each operation tells its caller which [`Frame`] to put on the wire, and each message read
//! from the wire is answered with a [`Dispatch`] that says who is to receive it. Whoever owns
//! the socket performs those actions and reports what came of them.
pub mod client;
pub mod error;
pub mod frame;
pub mod guarantees;
pub mod handle;
pub mod heartbeat;
pub mod history;
pub mod json;
pub mod label;
pub mod laws;
pub mod message;
pub mod options;
pub mod protocol;
pub mod queue;
pub mod service;
pub mod spin;
pub mod subscription;
pub mod table;
pub mod time;

pub use client::{Client, Dispatch, Read, Removal};
pub use error::{Error, Waited, timeout};
pub use frame::{Frame, Served, service_response};
pub use handle::{ClientHandle, ServiceCall, ServiceClient, interpret_reply, reply_outcome};
pub use heartbeat::{Heartbeat, HeartbeatStep, PING_INTERVAL, PONG_TIMEOUT, ping_outcome};
pub use label::{ClientIds, connection_label};
pub use message::{Ignored, Incoming, Message, Ops};
pub use options::ClientHandleOptions;
pub use queue::{MessageQueue, Received};
pub use spin::{ConnectStep, RETRY_DELAY, SPIN_DURATION, SpinAction, SpinEvent, connect, stubborn_connect};
pub use time::{Duration, Instant};
