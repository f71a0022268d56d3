//! The loop that keeps a connection alive.
use crate::client::{self, ClientView};
use crate::error::{Error, Waited};
use crate::handle::{ClientHandle, HandleView};
use vstd::prelude::*;

verus! {

/// How long one spin may take before the loop looks around again, in nanoseconds.
pub const SPIN_DURATION: u128 = 10_000_000;

/// How long to wait between attempts to connect, in nanoseconds.
pub const RETRY_DELAY: u128 = 200_000_000;

/// What the loop has just seen.
pub enum SpinEvent {
    /// A spin ended, or ran into [`SPIN_DURATION`].
    Spun(Waited<Result<(), Error>>),
    /// The ping / pong exchange was checked.
    HeartbeatChecked(Result<(), Error>),
    /// An attempt to reconnect ended.
    Reconnected(Result<(), Error>),
}

/// What the loop does next.
#[derive(Debug)]
pub enum SpinAction {
    /// Spin.
    Spin,
    /// Check the ping / pong exchange.
    CheckHeartbeat,
    /// Wake these callers without a response, then reconnect.
    Reconnect { woken: Vec<u64> },
    /// Wait for [`RETRY_DELAY`], then reconnect.
    Retry,
}

/// Which [`SpinAction`] it is.
pub enum SpinNext {
    Spin,
    CheckHeartbeat,
    Reconnect,
    Retry,
}

impl SpinAction {
    /// Which action it is.
    pub open spec fn next(self) -> SpinNext {
        match self {
            SpinAction::Spin => SpinNext::Spin,
            SpinAction::CheckHeartbeat => SpinNext::CheckHeartbeat,
            SpinAction::Reconnect { .. } => SpinNext::Reconnect,
            SpinAction::Retry => SpinNext::Retry,
        }
    }
}

/// Whether the connection was found to be lost.
pub open spec fn lost(event: SpinEvent) -> bool {
    match event {
        SpinEvent::Spun(Waited::Done(Err(_))) => true,
        SpinEvent::HeartbeatChecked(Err(_)) => true,
        _ => false,
    }
}

/// What follows an event.
pub open spec fn spin_next(event: SpinEvent) -> SpinNext {
    match event {
        SpinEvent::Spun(Waited::Done(Err(_))) => SpinNext::Reconnect,
        SpinEvent::Spun(_) => SpinNext::CheckHeartbeat,
        SpinEvent::HeartbeatChecked(Err(_)) => SpinNext::Reconnect,
        SpinEvent::HeartbeatChecked(Ok(_)) => SpinNext::Spin,
        SpinEvent::Reconnected(Err(_)) => SpinNext::Retry,
        SpinEvent::Reconnected(Ok(_)) => SpinNext::Spin,
    }
}

impl HandleView {
    /// The handle after an event: a lost connection is marked and its calls are given up, a
    /// successful reconnect clears the mark.
    pub open spec fn spun(self, event: SpinEvent) -> HandleView {
        if lost(event) {
            HandleView { client: self.client.without_calls(), connected: false }
        } else {
            match event {
                SpinEvent::Reconnected(Ok(_)) => HandleView { connected: true, ..self },
                _ => self,
            }
        }
    }

    /// The handle after these events one after the other.
    pub open spec fn spun_all(self, events: Seq<SpinEvent>) -> HandleView
        decreases events.len(),
    {
        if events.len() == 0 {
            self
        } else {
            self.spun_all(events.drop_last()).spun(events.last())
        }
    }
}

impl ClientHandle {
    fn connection_lost(&mut self) -> (woken: Vec<u64>)
        requires
            old(self).wf(),
        ensures
            final(self).wf(),
            final(self)@ == (HandleView {
                client: old(self)@.client.without_calls(),
                connected: false,
            }),
            client::wakes(woken@, old(self)@.client.service_calls),
    {
        self.is_disconnected = true;
        self.inner.abandon_calls()
    }

    /// One step of the loop that spins a client and reconnects it when that fails.
    ///
    /// A spin that takes too long is normal. Both it and a successful spin are the moment to keep
    /// the ping / pong exchange going: an idle connection never fails a spin. A failure to
    /// reconnect is never propagated, it is tried again.
    pub fn stubborn_spin(&mut self, event: SpinEvent) -> (action: SpinAction)
        requires
            old(self).wf(),
        ensures
            final(self).wf(),
            final(self)@ == old(self)@.spun(event),
            action.next() == spin_next(event),
            match action {
                SpinAction::Reconnect { woken } => client::wakes(
                    woken@,
                    old(self)@.client.service_calls,
                ),
                _ => true,
            },
    {
        match event {
            SpinEvent::Spun(Waited::Done(Err(_))) => {
                let woken = self.connection_lost();
                SpinAction::Reconnect { woken }
            },
            SpinEvent::Spun(_) => SpinAction::CheckHeartbeat,
            SpinEvent::HeartbeatChecked(Err(_)) => {
                let woken = self.connection_lost();
                SpinAction::Reconnect { woken }
            },
            SpinEvent::HeartbeatChecked(Ok(_)) => SpinAction::Spin,
            SpinEvent::Reconnected(Err(_)) => SpinAction::Retry,
            SpinEvent::Reconnected(Ok(_)) => {
                self.is_disconnected = false;
                SpinAction::Spin
            },
        }
    }
}

/// What to do after an attempt to connect.
#[derive(Debug, Clone, Copy, PartialEq, Eq, Structural)]
pub enum ConnectStep {
    /// Use the connection.
    Connected,
    /// Wait for [`RETRY_DELAY`], then try again.
    Retry,
}

/// The result of an attempt to connect, given the failure as the websocket describes it.
pub fn connect(attempt: Result<(), String>) -> (result: Result<(), Error>)
    ensures
        match attempt {
            Ok(_) => result is Ok,
            Err(reason) => result is Err && result->Err_0@ == crate::error::ErrorView::IoError(
                reason@,
            ),
        },
{
    match attempt {
        Ok(()) => Ok(()),
        Err(reason) => Err(Error::IoError(reason)),
    }
}

/// Connecting is tried again until it succeeds, however often it fails.
pub fn stubborn_connect(attempt: &Result<(), Error>) -> (step: ConnectStep)
    ensures
        step == (if attempt is Ok {
            ConnectStep::Connected
        } else {
            ConnectStep::Retry
        }),
{
    match attempt {
        Ok(_) => ConnectStep::Connected,
        Err(_) => ConnectStep::Retry,
    }
}

} // verus!
