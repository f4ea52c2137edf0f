//! The event system: events that native code dispatches are queued and
//! delivered, first in first out, to the one listener that is registered at
//! the time of delivery.
//!
//! The system decides; its owner acts. The owner takes the next event from
//! the queue on the host's own thread, asks what to do with it, and calls
//! the listener where it is told to.

use crate::host::{Host, HostValue};
use crate::transfer::{TransferError, Transferable};
use vstd::prelude::*;

verus! {

/// A native value that is dispatched as an event.
///
/// A type that states its conversion also says, in `event_name` and
/// `payload`, what `name` and `data` give; of the other types nothing is
/// claimed.
pub trait Event: Transferable {
    /// The name under which the listener receives the event.
    open spec fn event_name(&self) -> Seq<char> {
        Seq::empty()
    }

    /// The payload that the listener receives, or the error with which
    /// the event fails to give one.
    open spec fn payload(&self) -> Result<Host, TransferError> {
        Err(TransferError::Malformed)
    }

    fn name(&self) -> (name: String)
        ensures
            Self::specified() ==> name@ == self.event_name(),
    ;

    fn data(&self) -> (data: Result<HostValue, TransferError>)
        ensures
            Self::specified() ==> match data {
                Ok(host) => self.payload() == Ok::<Host, TransferError>(host@),
                Err(error) => self.payload() == Err::<Host, TransferError>(error),
            },
    ;
}

/// An event that waits for its delivery.
#[derive(Debug, PartialEq, Eq)]
pub struct Pending {
    pub name: String,
    pub data: Result<HostValue, TransferError>,
}

/// The mathematical value of a pending event: its name and its payload, or
/// the error in the payload's place.
pub open spec fn pending_view(pending: Pending) -> (Seq<char>, Result<Host, TransferError>) {
    (
        pending.name@,
        match pending.data {
            Ok(host) => Ok(host@),
            Err(error) => Err(error),
        },
    )
}

/// What the owner of the event system does with an event that is due.
#[derive(Debug, PartialEq, Eq)]
pub enum Action<'a, L> {
    /// No listener is registered: the event is dropped, which is no error.
    Discard,
    /// The event has no payload to hand over: the listener is not called.
    Fail(TransferError),
    /// The listener is called with the event's name and payload.
    Invoke(&'a L, String, HostValue),
}

/// What is done with `event` while `listener` is registered. An event
/// without payload fails, whoever listens; with nobody listening the event is
/// dropped; else the listener gets the event's name and payload.
pub fn delivery<'a, L>(listener: Option<&'a L>, event: Pending) -> (action: Action<'a, L>)
    ensures
        match event.data {
            Err(error) => action == Action::<L>::Fail(error),
            Ok(payload) => match listener {
                None => action is Discard,
                Some(callback) => action == Action::Invoke(callback, event.name, payload),
            },
        },
{
    let Pending { name, data } = event;
    match data {
        Err(error) => Action::Fail(error),
        Ok(payload) => match listener {
            None => Action::Discard,
            Some(callback) => Action::Invoke(callback, name, payload),
        },
    }
}

/// The event system once it is ready: the listener, if one is registered,
/// and the events that wait for delivery, oldest first.
pub struct EventSystem<L> {
    pub(crate) listener: Option<L>,
    pub(crate) queue: Vec<Pending>,
}

impl<L> EventSystem<L> {
    /// The registered listener.
    pub closed spec fn registered(&self) -> Option<L> {
        self.listener
    }

    /// The events that wait for delivery, oldest first.
    pub closed spec fn waiting(&self) -> Seq<(Seq<char>, Result<Host, TransferError>)> {
        self.queue@.map_values(|pending: Pending| pending_view(pending))
    }

    /// A ready event system without listener and without events.
    pub fn new() -> (system: Self)
        ensures
            system.registered() is None,
            system.waiting() == Seq::<(Seq<char>, Result<Host, TransferError>)>::empty(),
    {
        EventSystem { listener: None, queue: Vec::new() }
    }

    /// Registers `callback` as the listener, in place of any listener
    /// that was registered before. The waiting events stay as they are.
    pub fn set_event_listener(&mut self, callback: L)
        ensures
            final(self).registered() == Some(callback),
            final(self).waiting() == old(self).waiting(),
    {
        self.listener = Some(callback);
    }

    /// Queues `event` behind the events that wait already. The listener is
    /// not looked at before the event is due.
    pub fn dispatch_event<E: Event>(&mut self, event: E)
        ensures
            final(self).registered() == old(self).registered(),
            final(self).waiting().len() == old(self).waiting().len() + 1,
            final(self).waiting().drop_last() == old(self).waiting(),
            E::specified() ==> final(self).waiting().last() == (
                event.event_name(),
                event.payload(),
            ),
    {
        let pending = Pending { name: event.name(), data: event.data() };
        let ghost before = self.waiting();
        let ghost queued = pending_view(pending);
        self.queue.push(pending);
        assert(self.waiting() =~= before.push(queued));
        assert(self.waiting().drop_last() =~= before);
    }

    /// The registered listener.
    pub fn listener(&self) -> (listener: Option<&L>)
        ensures
            match listener {
                Some(callback) => self.registered() == Some(*callback),
                None => self.registered() is None,
            },
    {
        self.listener.as_ref()
    }

    /// Takes the oldest waiting event off the queue; `None` where no
    /// event waits.
    pub fn next_event(&mut self) -> (event: Option<Pending>)
        ensures
            final(self).registered() == old(self).registered(),
            match event {
                Some(pending) => old(self).waiting().len() > 0 && pending_view(pending) == old(
                    self,
                ).waiting()[0] && final(self).waiting() == old(self).waiting().skip(1),
                None => old(self).waiting().len() == 0 && final(self).waiting() == old(
                    self,
                ).waiting(),
            },
    {
        if self.queue.len() == 0 {
            return None;
        }
        let ghost before = self.waiting();
        let pending = self.queue.remove(0);
        assert(self.waiting() =~= before.skip(1));
        Some(pending)
    }
}

/// The place where the one event system of a process lives. It is empty
/// until the module is initialised, and holds the ready system from then on.
/// To register a listener or to dispatch an event before that is an error
/// of the caller, which the `requires` of both rule out.
pub trait EventSystemTrait<L> {
    /// Whether the event system is ready.
    spec fn ready(&self) -> bool;

    /// The registered listener of the ready system.
    spec fn registered(&self) -> Option<L>;

    /// The waiting events of the ready system, oldest first.
    spec fn waiting(&self) -> Seq<(Seq<char>, Result<Host, TransferError>)>;

    /// Registers `callback` as the listener; the last registration wins.
    fn set_event_listener(&mut self, callback: L)
        requires
            old(self).ready(),
        ensures
            final(self).ready(),
            final(self).registered() == Some(callback),
            final(self).waiting() == old(self).waiting(),
    ;

    /// Queues `event` for delivery behind the events that wait already.
    fn dispatch_event<E: Event>(&mut self, event: E)
        requires
            old(self).ready(),
        ensures
            final(self).ready(),
            final(self).registered() == old(self).registered(),
            final(self).waiting().len() == old(self).waiting().len() + 1,
            final(self).waiting().drop_last() == old(self).waiting(),
            E::specified() ==> final(self).waiting().last() == (
                event.event_name(),
                event.payload(),
            ),
    ;
}

impl<L> EventSystemTrait<L> for Option<EventSystem<L>> {
    open spec fn ready(&self) -> bool {
        self is Some
    }

    open spec fn registered(&self) -> Option<L> {
        self->0.registered()
    }

    open spec fn waiting(&self) -> Seq<(Seq<char>, Result<Host, TransferError>)> {
        self->0.waiting()
    }

    fn set_event_listener(&mut self, callback: L) {
        match self {
            Some(system) => system.set_event_listener(callback),
            None => {},
        }
    }

    fn dispatch_event<E: Event>(&mut self, event: E) {
        match self {
            Some(system) => system.dispatch_event(event),
            None => {},
        }
    }
}

} // verus!
