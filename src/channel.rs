use vstd::prelude::*;
use std::sync::mpsc::{Receiver, Sender};

verus! {

/// The sending end of a std queue, opaque to proofs.
#[verifier::external_type_specification]
#[verifier::external_body]
#[verifier::reject_recursive_types(T)]
pub struct ExSender<T>(Sender<T>);

/// The receiving end of a std queue, opaque to proofs.
#[verifier::external_type_specification]
#[verifier::external_body]
#[verifier::reject_recursive_types(T)]
pub struct ExReceiver<T>(Receiver<T>);

/// Relies on `std::sync::mpsc::channel`: two connected ends of a new unbounded queue.
pub assume_specification<T>[ std::sync::mpsc::channel::<T> ]() -> (Sender<T>, Receiver<T>);

/// Both ends of a queue of encoded messages.
pub struct Channel {
    pub sender: Sender<String>,
    pub receiver: Receiver<String>,
}

impl Channel {
    /// A new, empty queue.
    pub fn create_channel() -> Channel {
        let (sender, receiver) = std::sync::mpsc::channel::<String>();
        Channel { sender, receiver }
    }
}

/// Both ends of a queue of encoded messages bound for the user interface.
pub struct NewChannel {
    pub sender: Sender<String>,
    pub receiver: Receiver<String>,
}

impl NewChannel {
    /// A new, empty queue.
    pub fn create_channel() -> NewChannel {
        let (sender, receiver) = std::sync::mpsc::channel::<String>();
        NewChannel { sender, receiver }
    }
}

} // verus!
