//! The websocket ping / pong exchange of a connection.
use crate::error::{self, Error, ErrorView, Waited};
use crate::time::Instant;
use vstd::prelude::*;

verus! {

/// How often a websocket ping is sent to prove the connection is still round-tripping, in nanoseconds.
pub const PING_INTERVAL: u128 = 1_000_000_000;

/// How long the server may go without answering a ping before the socket is thrown away,
/// in nanoseconds.
pub const PONG_TIMEOUT: u128 = 5_000_000_000;

/// Tracks the websocket ping / pong exchange for a single connection.
#[derive(Debug, Clone, Copy, PartialEq, Eq, Structural)]
pub struct Heartbeat {
    pub last_ping_sent: Instant,
    pub last_pong_received: Instant,
}

/// What the ping / pong exchange asks for.
#[derive(Debug, Clone, Copy, PartialEq, Eq, Structural)]
pub enum HeartbeatStep {
    /// Nothing yet.
    Wait,
    /// Send a ping.
    Ping,
}

impl Heartbeat {
    /// Whether the server has left pings unanswered for too long.
    pub open spec fn dead(self, now: Instant) -> bool {
        now.since(self.last_pong_received) > PONG_TIMEOUT
    }

    /// Whether it is time for another ping.
    pub open spec fn due(self, now: Instant) -> bool {
        now.since(self.last_ping_sent) >= PING_INTERVAL
    }

    /// The exchange after a check, and what the check reports.
    pub open spec fn checked(self, now: Instant, writer_free: bool) -> (
        Heartbeat,
        Result<HeartbeatStep, ErrorView>,
    ) {
        if self.dead(now) {
            (
                self,
                Err(
                    ErrorView::Unexpected("No pong received in 5s, connection is presumed dead"@),
                ),
            )
        } else if self.due(now) && writer_free {
            (Heartbeat { last_ping_sent: now, ..self }, Ok(HeartbeatStep::Ping))
        } else {
            (self, Ok(HeartbeatStep::Wait))
        }
    }

    /// Starts the deadline fresh, for a new socket.
    pub fn new(now: Instant) -> (heartbeat: Heartbeat)
        ensures
            heartbeat == (Heartbeat { last_ping_sent: now, last_pong_received: now }),
    {
        Heartbeat { last_ping_sent: now, last_pong_received: now }
    }

    /// Asks for a ping on an interval, and reports an error once the server has stopped answering
    /// them.
    ///
    /// A ping is not worth queuing behind a write in flight: while the writer is taken, none is
    /// asked for.
    pub fn check(&mut self, now: Instant, writer_free: bool) -> (result: Result<
        HeartbeatStep,
        Error,
    >)
        ensures
            (*final(self), error::outcome(result)) == old(self).checked(now, writer_free),
    {
        if now.duration_since(self.last_pong_received).nanos > PONG_TIMEOUT {
            return Err(
                Error::Unexpected(
                    "No pong received in 5s, connection is presumed dead".to_owned(),
                ),
            );
        }
        if now.duration_since(self.last_ping_sent).nanos < PING_INTERVAL {
            return Ok(HeartbeatStep::Wait);
        }
        if !writer_free {
            return Ok(HeartbeatStep::Wait);
        }
        self.last_ping_sent = now;
        Ok(HeartbeatStep::Ping)
    }
}

/// What a ping that was waited for over one [`PING_INTERVAL`] reports.
pub open spec fn ping_result(sent: Waited<Result<(), Error>>) -> Result<(), ErrorView> {
    match sent {
        Waited::Done(result) => error::outcome(result),
        Waited::Elapsed => Err(ErrorView::Timeout("Timed out sending websocket ping"@)),
    }
}

/// What a ping that was waited for over one [`PING_INTERVAL`] reports.
///
/// A ping that cannot reach the socket within a full interval is itself evidence that the
/// connection is no longer usable.
pub fn ping_outcome(sent: Waited<Result<(), Error>>) -> (result: Result<(), Error>)
    ensures
        error::outcome(result) == ping_result(sent),
        sent matches Waited::Done(done) ==> result == done,
        sent is Elapsed ==> (result matches Err(Error::Timeout(text)) && text@
            == "Timed out sending websocket ping"@),
{
    match sent {
        Waited::Done(result) => result,
        Waited::Elapsed => Err(Error::Timeout("Timed out sending websocket ping".to_owned())),
    }
}

/// A socket whose last pong is no older than [`PONG_TIMEOUT`] is left alone, however often it is
/// checked.
pub proof fn answering_socket_is_left_alone(heartbeat: Heartbeat, now: Instant, writer_free: bool)
    requires
        now.since(heartbeat.last_pong_received) <= PONG_TIMEOUT,
    ensures
        heartbeat.checked(now, writer_free).1 is Ok,
        heartbeat.checked(now, writer_free).0.last_pong_received == heartbeat.last_pong_received,
{
}

/// A socket whose last pong is older than [`PONG_TIMEOUT`] is reported dead, and stays so at any
/// later time until another pong comes.
pub proof fn silent_socket_is_reported(
    heartbeat: Heartbeat,
    now: Instant,
    later: Instant,
    writer_free: bool,
)
    requires
        now.since(heartbeat.last_pong_received) > PONG_TIMEOUT,
        now.nanos <= later.nanos,
    ensures
        heartbeat.checked(later, writer_free).1 is Err,
        heartbeat.checked(later, writer_free).0 == heartbeat,
{
}

/// A check of a socket whose last pong is at most five seconds old asks for a ping exactly if the
/// last one is a second old or more and the writer is free. The ping counts from then, and a check
/// that asks for none changes nothing.
pub proof fn ping_is_asked_for_whenever_it_is_due(
    heartbeat: Heartbeat,
    now: Instant,
    writer_free: bool,
)
    requires
        now.nanos <= heartbeat.last_pong_received.nanos + 5_000_000_000,
    ensures
        ({
            let due = now.nanos >= heartbeat.last_ping_sent.nanos + 1_000_000_000;
            let (after, result) = heartbeat.checked(now, writer_free);
            &&& due && writer_free ==> {
                &&& result == Ok::<HeartbeatStep, ErrorView>(HeartbeatStep::Ping)
                &&& after.last_ping_sent == now
            }
            &&& !due || !writer_free ==> {
                &&& result == Ok::<HeartbeatStep, ErrorView>(HeartbeatStep::Wait)
                &&& after.last_ping_sent == heartbeat.last_ping_sent
            }
            &&& after.last_pong_received == heartbeat.last_pong_received
        }),
{
}

/// A check of a socket whose last pong is more than five seconds old reports it dead, and changes
/// nothing.
pub proof fn socket_is_dead_after_five_silent_seconds(
    heartbeat: Heartbeat,
    now: Instant,
    writer_free: bool,
)
    requires
        now.nanos > heartbeat.last_pong_received.nanos + 5_000_000_000,
    ensures
        heartbeat.checked(now, writer_free) == (
            heartbeat,
            Err::<HeartbeatStep, ErrorView>(
                ErrorView::Unexpected("No pong received in 5s, connection is presumed dead"@),
            ),
        ),
{
}

/// Pings are a second apart, and pongs may be missing for five.
pub proof fn heartbeat_keeps_its_times()
    ensures
        PING_INTERVAL == 1 * 1_000_000_000,
        PONG_TIMEOUT == 5 * 1_000_000_000,
{
}

/// What came of sending a ping in time is passed on as it is. One that took too long is a timeout.
pub proof fn ping_passes_on_what_came_of_it(error: Error)
    ensures
        ping_result(Waited::Done(Ok(()))) == Ok::<(), ErrorView>(()),
        ping_result(Waited::Done(Err(error))) == Err::<(), ErrorView>(error@),
        ping_result(Waited::Elapsed) == Err::<(), ErrorView>(
            ErrorView::Timeout("Timed out sending websocket ping"@),
        ),
{
}

/// Within one [`PING_INTERVAL`] of a ping no other is asked for.
pub proof fn pings_keep_their_interval(
    heartbeat: Heartbeat,
    now: Instant,
    later: Instant,
    writer_free: bool,
    writer_free_later: bool,
)
    requires
        heartbeat.checked(now, writer_free).1 == Ok::<HeartbeatStep, ErrorView>(
            HeartbeatStep::Ping,
        ),
        later.since(now) < PING_INTERVAL,
    ensures
        heartbeat.checked(now, writer_free).0.checked(later, writer_free_later).1 != Ok::<
            HeartbeatStep,
            ErrorView,
        >(HeartbeatStep::Ping),
{
}

} // verus!
