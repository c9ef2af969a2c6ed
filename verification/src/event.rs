use vstd::prelude::*;
use crate::actor::Actor;
use crate::message::Message;
use crate::message::MessageView;

verus! {

/// The unit of scheduling: one target actor reference paired with one
/// message. An event is immutable once constructed; two events carrying
/// the same target and message are still distinct scheduling units when
/// enqueued twice.
#[derive(Debug, PartialEq)]
pub struct Event {
    pub target: Actor,
    pub message: Message,
}

/// The mathematical value of an `Event`.
pub struct EventView {
    pub target: Actor,
    pub message: MessageView,
}

impl View for Event {
    type V = EventView;

    open spec fn view(&self) -> EventView {
        EventView { target: self.target, message: self.message@ }
    }
}

impl Event {
    /// An event delivering `message` to `target`.
    pub fn new(target: &Actor, message: Message) -> (e: Event)
        ensures
            e.target == *target,
            e.message == message,
    {
        Event { target: *target, message }
    }
}

impl Clone for Event {
    /// A clone carries the same target and the same mathematical value.
    fn clone(&self) -> (r: Event)
        ensures
            r@ == self@,
    {
        Event { target: self.target, message: self.message.clone() }
    }
}

} // verus!
