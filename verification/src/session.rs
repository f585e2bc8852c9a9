//! One connection: what it does with each event that the transport hands in.
//!
//! A session is `Active` until its stream ends or its transport fails. It is
//! then `Closing`, and `Terminated` once it has left the directory. The
//! transport waits for events, hands them in one at a time, and carries out
//! the action it gets back.

use crate::trader::Transaction;
use crate::transaction_service::{Outcome, OutcomeView, ServiceState, TransactionService};
use vstd::prelude::*;

verus! {

/// Where a session stands in its life.
#[derive(Debug, Copy, Clone, PartialEq, Eq, Structural)]
pub enum SessionState {
    /// Normal operation.
    Active,
    /// The stream has ended or the transport has failed; the trader is still
    /// in the directory.
    Closing,
    /// The trader has left the directory; nothing more happens.
    Terminated,
}

/// The library's side of one connection.
#[derive(Debug, Copy, Clone, PartialEq, Eq, Structural)]
pub struct Trader {
    pub trader_id: u16,
    pub state: SessionState,
}

/// What the transport saw happen on a connection.
#[derive(Debug)]
pub enum SessionEvent {
    /// A notification for this trader has arrived on its private channel.
    Notification(String),
    /// The client has sent a complete line.
    Line(String),
    /// Reading from or writing to the socket has failed.
    TransportError,
    /// The client has closed the stream, or no source of events is left.
    EndOfStream,
}

/// What the transport is to do next.
#[derive(Debug)]
pub enum SessionAction {
    /// Write this line to the client's socket, as it is.
    Write(String),
    /// Hand the notifications on to their receivers and log the lines.
    Dispatch(Outcome),
    /// Stop waiting for events on this connection.
    Close,
}

/// An action as a value.
pub enum SessionActionView {
    Write(Seq<char>),
    Dispatch(OutcomeView),
    Close,
}

impl View for SessionAction {
    type V = SessionActionView;

    open spec fn view(&self) -> SessionActionView {
        match self {
            SessionAction::Write(line) => SessionActionView::Write(line@),
            SessionAction::Dispatch(outcome) => SessionActionView::Dispatch(outcome@),
            SessionAction::Close => SessionActionView::Close,
        }
    }
}

impl Trader {
    /// What one event does to the session and to the registry, and what the
    /// transport is told to do. Only an active session acts on an event: it
    /// passes a notification on, answers a line, and begins to close on the
    /// end of the stream or a transport error.
    pub open spec fn step(self, service: ServiceState, event: SessionEvent) -> (
        Trader,
        ServiceState,
        SessionActionView,
    ) {
        match self.state {
            SessionState::Active => match event {
                SessionEvent::Notification(line) => (
                    self,
                    service,
                    SessionActionView::Write(line@),
                ),
                SessionEvent::Line(line) => {
                    let (after, outcome) = service.respond(
                        self.trader_id,
                        Transaction::parse(self.trader_id, line@),
                    );
                    (self, after, SessionActionView::Dispatch(outcome))
                },
                SessionEvent::TransportError | SessionEvent::EndOfStream => (
                    Trader { state: SessionState::Closing, ..self },
                    service,
                    SessionActionView::Close,
                ),
            },
            _ => (self, service, SessionActionView::Close),
        }
    }

    /// What the end of a session does to it and to the registry. A session
    /// that is terminated already changes nothing.
    pub open spec fn end(self, service: ServiceState) -> (Trader, ServiceState) {
        match self.state {
            SessionState::Terminated => (self, service),
            _ => (
                Trader { state: SessionState::Terminated, ..self },
                service.remove_trader(self.trader_id),
            ),
        }
    }

    /// Takes one event of this connection and decides what follows.
    pub fn process(&mut self, service: &mut TransactionService, event: SessionEvent) -> (r:
        SessionAction)
        ensures
            (*final(self), final(service)@, r@) == old(self).step(old(service)@, event),
    {
        match self.state {
            SessionState::Active => match event {
                SessionEvent::Notification(line) => SessionAction::Write(line),
                SessionEvent::Line(line) => SessionAction::Dispatch(
                    service.read_transaction_message(self.trader_id, line),
                ),
                SessionEvent::TransportError | SessionEvent::EndOfStream => {
                    self.state = SessionState::Closing;
                    SessionAction::Close
                },
            },
            _ => SessionAction::Close,
        }
    }

    /// Ends the session: the trader leaves the directory. What it left in
    /// the books stays there.
    pub fn terminate(&mut self, service: &mut TransactionService)
        ensures
            (*final(self), final(service)@) == old(self).end(old(service)@),
    {
        match self.state {
            SessionState::Terminated => {},
            _ => {
                service.remove_trader(self.trader_id);
                self.state = SessionState::Terminated;
            },
        }
    }
}

/// Begins the session of a new connection: the trader enters the directory
/// and is active.
pub fn handle_new_trader(trader_id: u16, service: &mut TransactionService) -> (r: Trader)
    ensures
        r == (Trader { trader_id, state: SessionState::Active }),
        final(service)@ == old(service)@.register_trader(trader_id),
{
    service.register_trader(trader_id);
    Trader { trader_id, state: SessionState::Active }
}

} // verus!
