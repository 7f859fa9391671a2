//! The queue of events and the handler that hands each event to the part
//! of the device it concerns.

use vstd::prelude::*;
use std::sync::mpsc::{channel, Receiver, Sender};
use crate::events::Event;
use self::api::{ApiCommand, ApiError, ApiEventHandler};

pub mod api;

verus! {

/// `std::sync::mpsc::Sender`, the sending end of a queue. It is carried
/// through; nothing is known of what it holds.
#[verifier::external_type_specification]
#[verifier::external_body]
#[verifier::reject_recursive_types(T)]
pub struct ExSender<T>(Sender<T>);

/// `std::sync::mpsc::Receiver`, the receiving end of a queue. It is
/// carried through; nothing is known of what it holds.
#[verifier::external_type_specification]
#[verifier::external_body]
#[verifier::reject_recursive_types(T)]
pub struct ExReceiver<T>(Receiver<T>);

/// `std::sync::mpsc::channel` makes the two ends of a new queue. Nothing
/// is claimed of them.
pub assume_specification<T>[ channel::<T> ]() -> (ends: (Sender<T>, Receiver<T>));

/// The handlers that the events are handed to.
pub struct SubHandlers<'a> {
    pub api_handler: &'a ApiEventHandler,
}

pub struct EventHandler {
    pub channel: (Sender<Event>, Receiver<Event>),
}

/// Makes the two ends of a new event queue.
pub fn mk_queue() -> (ends: (Sender<Event>, Receiver<Event>)) {
    channel()
}

impl EventHandler {
    /// A handler that keeps both ends of its queue.
    pub fn init(channel: (Sender<Event>, Receiver<Event>)) -> (handler: Self)
        ensures
            handler.channel == channel,
    {
        Self { channel }
    }

    /// Hands `e` to the handler it concerns and returns that handler's
    /// answer.
    pub fn handle(&mut self, e: Event, shs: SubHandlers) -> (res: Result<ApiCommand, ApiError>)
        ensures
            res == (match e {
                Event::Api(ae) => shs.api_handler.answer(ae),
            }),
            final(self).channel == old(self).channel,
    {
        match e {
            Event::Api(ae) => shs.api_handler.handle(ae),
        }
    }
}

} // verus!
