//! The control handler bridge: control requests of the service control
//! manager become events in a first-in, first-out queue.

use vstd::prelude::*;

verus! {

/// A control request as the service control manager delivers it.
#[derive(Clone, Copy, Debug, PartialEq, Eq)]
pub enum ControlRequest {
    Stop,
    Pause,
    Continue,
    Interrogate,
    Shutdown,
    Other,
}

/// A lifecycle request that the run loop consumes.
#[derive(Clone, Copy, Debug, PartialEq, Eq)]
pub enum ControlEvent {
    Stop,
    Pause,
    Continue,
}

/// The synchronous answer that the bridge gives to the service control manager.
#[derive(Clone, Copy, Debug, PartialEq, Eq)]
pub enum Acknowledgement {
    NoError,
    NotImplemented,
}

/// The event that a request stands for, if the bridge understands it.
pub open spec fn event_of(request: ControlRequest) -> Option<ControlEvent> {
    match request {
        ControlRequest::Stop => Some(ControlEvent::Stop),
        ControlRequest::Pause => Some(ControlEvent::Pause),
        ControlRequest::Continue => Some(ControlEvent::Continue),
        _ => None,
    }
}

/// The answer owed for a request: accepted exactly when it stands for an event.
pub open spec fn acknowledgement_of(request: ControlRequest) -> Acknowledgement {
    if event_of(request) is Some {
        Acknowledgement::NoError
    } else {
        Acknowledgement::NotImplemented
    }
}

/// Exec counterpart of [`event_of`].
pub fn translate(request: ControlRequest) -> (event: Option<ControlEvent>)
    ensures
        event == event_of(request),
{
    match request {
        ControlRequest::Stop => Some(ControlEvent::Stop),
        ControlRequest::Pause => Some(ControlEvent::Pause),
        ControlRequest::Continue => Some(ControlEvent::Continue),
        _ => None,
    }
}

/// The events that were accepted and not yet consumed, oldest first.
pub struct ControlQueue {
    pending: Vec<ControlEvent>,
}

impl View for ControlQueue {
    type V = Seq<ControlEvent>;

    closed spec fn view(&self) -> Seq<ControlEvent> {
        self.pending@
    }
}

impl ControlQueue {
    /// A queue with nothing pending.
    pub fn new() -> (queue: Self)
        ensures
            queue@ == Seq::<ControlEvent>::empty(),
    {
        ControlQueue { pending: Vec::new() }
    }

    /// Number of pending events.
    pub fn len(&self) -> (n: usize)
        ensures
            n == self@.len(),
    {
        self.pending.len()
    }

    /// Handles one control request on behalf of the service control manager.
    ///
    /// A Stop, Pause or Continue is appended behind everything already
    /// pending and acknowledged; any other request is answered as not
    /// implemented and leaves the queue as it was.
    pub fn deliver(&mut self, request: ControlRequest) -> (ack: Acknowledgement)
        ensures
            ack == acknowledgement_of(request),
            final(self)@ == match event_of(request) {
                Some(event) => old(self)@.push(event),
                None => old(self)@,
            },
    {
        match translate(request) {
            Some(event) => {
                self.pending.push(event);
                Acknowledgement::NoError
            },
            None => Acknowledgement::NotImplemented,
        }
    }

    /// Takes the oldest pending event, without waiting: `None` when nothing
    /// is pending.
    pub fn take(&mut self) -> (event: Option<ControlEvent>)
        ensures
            old(self)@.len() == 0 ==> event is None && final(self)@ == old(self)@,
            old(self)@.len() > 0 ==> event == Some(old(self)@[0]) && final(self)@ == old(
                self,
            )@.skip(1),
    {
        if self.pending.len() == 0 {
            None
        } else {
            let event = self.pending.remove(0);
            assert(self.pending@ =~= old(self).pending@.skip(1));
            Some(event)
        }
    }
}

} // verus!
