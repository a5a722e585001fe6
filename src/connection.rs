use vstd::prelude::*;
use std::collections::VecDeque;
use crate::error::PunctureError;
use crate::events::Event;
use crate::payment::{PaymentRequestWithAmountWrapper, SendCommand};

verus! {

/// The daemon's current fee schedule.
#[derive(Debug, Clone, Copy, PartialEq, Eq)]
pub struct FeeSchedule {
    /// Proportional fee, in parts per million of the amount.
    pub fee_ppm: u64,
    /// Flat fee added to every payment.
    pub base_fee_msat: u64,
}

/// The fee for sending `amount_msat`: proportional part rounded down, plus the base fee.
pub open spec fn fee_of(amount_msat: int, fees: FeeSchedule) -> int {
    (amount_msat * fees.fee_ppm) / 1_000_000 + fees.base_fee_msat
}

/// Fee for sending `amount_msat` under `fees`, in exact integer arithmetic;
/// `None` when the fee does not fit in 64 bits.
pub fn quote_fee(amount_msat: u64, fees: &FeeSchedule) -> (r: Option<u64>)
    ensures
        r.is_some() <==> fee_of(amount_msat as int, *fees) <= u64::MAX,
        r matches Some(f) ==> f == fee_of(amount_msat as int, *fees),
{
    let a: u128 = amount_msat as u128;
    let p: u128 = fees.fee_ppm as u128;
    assert(a * p <= 0xffff_ffff_ffff_ffffu128 * 0xffff_ffff_ffff_ffffu128) by (nonlinear_arith)
        requires
            a <= 0xffff_ffff_ffff_ffffu128,
            p <= 0xffff_ffff_ffff_ffffu128,
    ;
    let scaled: u128 = (a * p) / 1_000_000;
    let base: u128 = fees.base_fee_msat as u128;
    if scaled > 0xffff_ffff_ffff_ffffu128 - base {
        None
    } else {
        Some((scaled + base) as u64)
    }
}

/// Why a session ended.
#[derive(Debug, Clone, Copy, PartialEq, Eq)]
pub enum EndReason {
    /// The transport lost the daemon.
    Lost,
    /// The daemon was deleted from the registry.
    Unregistered,
}

/// Where a connection stands. Building a connection never fails: it starts in
/// `Connecting`, and reachability shows only on first use.
#[derive(Debug, Clone, Copy, PartialEq, Eq)]
pub enum SessionState {
    Connecting,
    Live,
    Ended(EndReason),
}

/// What the transport reports to a connection.
pub enum TransportEvent {
    /// The session to the daemon is established.
    Connected,
    /// The daemon emitted an event.
    Delivered(Event),
    /// The transport lost the daemon.
    Lost,
    /// The daemon is no longer registered.
    DaemonGone,
}

/// The error that operations on an ended session report.
pub open spec fn end_error(reason: EndReason) -> PunctureError {
    match reason {
        EndReason::Lost => PunctureError::SessionClosed,
        EndReason::Unregistered => PunctureError::DaemonUnregistered,
    }
}

/// The state after the transport reports `ev` in state `s`. An ended session stays ended.
pub open spec fn next_state(s: SessionState, ev: TransportEvent) -> SessionState {
    match s {
        SessionState::Ended(_) => s,
        _ => match ev {
            TransportEvent::Connected => SessionState::Live,
            TransportEvent::Delivered(_) => s,
            TransportEvent::Lost => SessionState::Ended(EndReason::Lost),
            TransportEvent::DaemonGone => SessionState::Ended(EndReason::Unregistered),
        },
    }
}

/// A session to one daemon, with the events it has delivered and the caller
/// has not yet taken, oldest first.
pub struct PunctureConnectionWrapper {
    daemon_id: String,
    state: SessionState,
    queue: VecDeque<Event>,
}

impl PunctureConnectionWrapper {
    /// Identity of the daemon this connection is bound to.
    pub closed spec fn daemon(&self) -> Seq<char> {
        self.daemon_id@
    }

    /// The session's state.
    pub closed spec fn session(&self) -> SessionState {
        self.state
    }

    /// Events delivered and not yet taken, in emission order.
    pub closed spec fn queued(&self) -> Seq<Event> {
        self.queue@
    }

    /// A fresh connection to the daemon `daemon_id`; it has not reached the daemon yet.
    pub fn new(daemon_id: String) -> (r: Self)
        ensures
            r.daemon() == daemon_id@,
            r.session() == SessionState::Connecting,
            r.queued() == Seq::<Event>::empty(),
    {
        PunctureConnectionWrapper { daemon_id, state: SessionState::Connecting, queue: VecDeque::new() }
    }

    /// Identity of the daemon this connection is bound to.
    pub fn daemon_id(&self) -> (r: String)
        ensures
            r@ == self.daemon(),
    {
        self.daemon_id.clone()
    }

    /// The session's state.
    pub fn state(&self) -> (r: SessionState)
        ensures
            r == self.session(),
    {
        self.state
    }

    /// Number of events waiting to be taken.
    pub fn pending_events(&self) -> (r: usize)
        ensures
            r == self.queued().len(),
    {
        self.queue.len()
    }

    /// Takes in what the transport reports: a delivered event joins the back
    /// of the queue, whatever the state; the others move the state.
    pub fn on_transport(&mut self, ev: TransportEvent)
        ensures
            final(self).daemon() == old(self).daemon(),
            final(self).session() == next_state(old(self).session(), ev),
            final(self).queued() == (match ev {
                TransportEvent::Delivered(e) => old(self).queued().push(e),
                _ => old(self).queued(),
            }),
    {
        let ended = match self.state {
            SessionState::Ended(_) => true,
            _ => false,
        };
        match ev {
            TransportEvent::Connected => {
                if !ended {
                    self.state = SessionState::Live;
                }
            },
            TransportEvent::Delivered(e) => {
                self.queue.push_back(e);
            },
            TransportEvent::Lost => {
                if !ended {
                    self.state = SessionState::Ended(EndReason::Lost);
                }
            },
            TransportEvent::DaemonGone => {
                if !ended {
                    self.state = SessionState::Ended(EndReason::Unregistered);
                }
            },
        }
    }

    /// `Ok` while the session has not ended; after that, the error of its end.
    pub fn ensure_usable(&self) -> (r: Result<(), PunctureError>)
        ensures
            match self.session() {
                SessionState::Ended(reason) => r == Err::<(), PunctureError>(end_error(reason)),
                _ => r == Ok::<(), PunctureError>(()),
            },
    {
        match self.state {
            SessionState::Ended(EndReason::Lost) => Err(PunctureError::SessionClosed),
            SessionState::Ended(EndReason::Unregistered) => Err(PunctureError::DaemonUnregistered),
            _ => Ok(()),
        }
    }

    /// Takes the oldest waiting event. With none waiting: `Ok(None)` while the
    /// session may still deliver (the caller waits for the transport), and the
    /// error of its end once it has ended. No event is dropped or repeated.
    pub fn next_event(&mut self) -> (r: Result<Option<Event>, PunctureError>)
        ensures
            final(self).daemon() == old(self).daemon(),
            final(self).session() == old(self).session(),
            old(self).queued().len() > 0 ==> {
                &&& r == Ok::<Option<Event>, PunctureError>(Some(old(self).queued()[0]))
                &&& final(self).queued() == old(self).queued().drop_first()
            },
            old(self).queued().len() == 0 ==> {
                &&& final(self).queued() == old(self).queued()
                &&& r == match old(self).session() {
                    SessionState::Ended(reason) => Err::<Option<Event>, PunctureError>(end_error(reason)),
                    _ => Ok::<Option<Event>, PunctureError>(None),
                }
            },
    {
        match self.queue.pop_front() {
            Some(e) => Ok(Some(e)),
            None => match self.ensure_usable() {
                Ok(()) => Ok(None),
                Err(e) => Err(e),
            },
        }
    }

    /// Quotes the fee for `amount_msat`, given the answer of the daemon to a
    /// fresh fee lookup. An ended session fails with its end's error, a failed
    /// lookup with its own, a fee over 64 bits with `FeeOverflow`.
    pub fn quote(&self, amount_msat: u64, fees: Result<FeeSchedule, PunctureError>) -> (r: Result<u64, PunctureError>)
        ensures
            match self.session() {
                SessionState::Ended(reason) => r == Err::<u64, PunctureError>(end_error(reason)),
                _ => match fees {
                    Err(e) => r == Err::<u64, PunctureError>(e),
                    Ok(f) => if fee_of(amount_msat as int, f) <= u64::MAX {
                        r == Ok::<u64, PunctureError>(fee_of(amount_msat as int, f) as u64)
                    } else {
                        r == Err::<u64, PunctureError>(PunctureError::FeeOverflow)
                    },
                },
            },
    {
        match self.ensure_usable() {
            Err(e) => Err(e),
            Ok(()) => match fees {
                Err(e) => Err(e),
                Ok(f) => match quote_fee(amount_msat, &f) {
                    Some(fee) => Ok(fee),
                    None => Err(PunctureError::FeeOverflow),
                },
            },
        }
    }

    /// The command to transmit for paying `request`; an ended session fails
    /// with its end's error. The amount sent is the request's own.
    pub fn send(&self, request: &PaymentRequestWithAmountWrapper) -> (r: Result<SendCommand, PunctureError>)
        ensures
            match self.session() {
                SessionState::Ended(reason) => r == Err::<SendCommand, PunctureError>(end_error(reason)),
                _ => r matches Ok(c) && match c {
                    SendCommand::Bolt11 { invoice, amount_msat, ln_address } => request.is_bolt11()
                        && invoice@ == request.target() && amount_msat == request.amount()
                        && request.address() == match ln_address {
                        Some(a) => Some(a@),
                        None => None::<Seq<char>>,
                    },
                    SendCommand::Bolt12 { offer, amount_msat } => !request.is_bolt11() && offer@
                        == request.target() && amount_msat == request.amount(),
                },
            },
    {
        match self.ensure_usable() {
            Err(e) => Err(e),
            Ok(()) => Ok(request.send_command()),
        }
    }
}

} // verus!

verus! {

/// A delivery never overtakes an event that is already waiting: the front of
/// the queue stays, and the new event goes behind the rest.
pub proof fn lemma_delivery_keeps_order(q: Seq<Event>, e: Event)
    requires
        q.len() > 0,
    ensures
        q.push(e)[0] == q[0],
        q.push(e).drop_first() == q.drop_first().push(e),
{
    assert(q.push(e).drop_first() =~= q.drop_first().push(e));
}

/// Once the transport reports a daemon gone, its connection is ended for
/// good, and while it had not ended before, every later use fails with
/// `DaemonUnregistered`.
pub proof fn lemma_orphaned_connection_fails(s: SessionState, later: TransportEvent)
    ensures
        next_state(s, TransportEvent::DaemonGone) is Ended,
        next_state(next_state(s, TransportEvent::DaemonGone), later) == next_state(
            s,
            TransportEvent::DaemonGone,
        ),
        !(s is Ended) ==> next_state(s, TransportEvent::DaemonGone) == SessionState::Ended(
            EndReason::Unregistered,
        ) && end_error(EndReason::Unregistered) == PunctureError::DaemonUnregistered,
{
}

} // verus!
