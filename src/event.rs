use vstd::prelude::*;

use std::sync::mpsc::{Receiver, Sender};

use crate::item::{Pet, PetKind};
use crate::state::{apply_update, AppState};

verus! {

/// A command from the interface to the backend worker.
#[derive(Debug, PartialEq)]
pub enum BackendEvent {
    /// Look up a random photo for a species.
    FetchPetImage(PetKind),
    /// Read one record by id.
    GetPetDB(i64),
    /// Persist a draft record.
    InsertPetDB(Pet),
    /// Delete one record by id.
    DeletePetDB(i64),
}

/// An update from the backend to the interface.
#[derive(Debug, PartialEq)]
pub enum RenderEvent {
    /// A fresh snapshot of every record, in the store's order.
    SetPets(Vec<Pet>),
    /// The photo to show, or none.
    SetPetImage(Option<String>),
    /// The record to show as selected, or none.
    SetSelectedPet(Option<Pet>),
}

/// The sending half of a std channel, carried through opaque.
#[verifier::external_type_specification]
#[verifier::external_body]
#[verifier::reject_recursive_types(T)]
pub struct ExSender<T>(Sender<T>);

/// The receiving half of a std channel, carried through opaque.
#[verifier::external_type_specification]
#[verifier::external_body]
#[verifier::reject_recursive_types(T)]
pub struct ExReceiver<T>(Receiver<T>);

/// One side of the message loop: it sends `T`, receives `U` and owns the
/// state `C` that the messages it receives act on.
#[verifier::reject_recursive_types(T)]
#[verifier::reject_recursive_types(U)]
pub struct Handler<T, U, C> {
    pub sender: Sender<T>,
    pub receiver: Receiver<U>,
    pub state: C,
}

impl<T, U, C> Handler<T, U, C> {
    pub fn new(sender: Sender<T>, receiver: Receiver<U>, state: C) -> (r: Handler<T, U, C>)
        ensures
            r.sender == sender,
            r.receiver == receiver,
            r.state == state,
    {
        Handler { sender, receiver, state }
    }
}

/// A side of the message loop that acts on the messages it receives.
pub trait EventHandle {
    type RecvEvent;

    /// Whether `next` is what `self` becomes on handling `ev`.
    spec fn handled(&self, ev: Self::RecvEvent, next: &Self) -> bool;

    /// Act on one received message.
    fn handle(&mut self, recv_event: Self::RecvEvent)
        ensures
            old(self).handled(recv_event, final(self)),
    ;
}

impl<T> EventHandle for Handler<T, RenderEvent, AppState> {
    type RecvEvent = RenderEvent;

    /// The interface side applies the update to its state and keeps its
    /// channels.
    open spec fn handled(&self, ev: RenderEvent, next: &Self) -> bool {
        &&& next.state@ == apply_update(self.state@, ev)
        &&& next.sender == self.sender
        &&& next.receiver == self.receiver
    }

    fn handle(&mut self, event: RenderEvent) {
        self.state.apply(event);
    }
}

impl<T> Handler<T, RenderEvent, AppState> {
    /// Apply every update drained from the channel in one tick, in the order
    /// they arrived.
    pub fn handle_all(&mut self, events: Vec<RenderEvent>)
        ensures
            final(self).state@ == crate::state::apply_updates(old(self).state@, events@),
            final(self).sender == old(self).sender,
            final(self).receiver == old(self).receiver,
    {
        self.state.apply_all(events);
    }
}

} // verus!
