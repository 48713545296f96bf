use vstd::prelude::*;

use crate::event::{BackendEvent, RenderEvent};
use crate::item::{CatJSON, DogJSON, Pet, PetKind, UNSAVED_ID};

verus! {

/// The photo endpoint for dogs: `{ "message": <url> }`.
pub const DOG_API: &'static str = "https://dog.ceo/api/breeds/image/random";

/// The photo endpoint for cats and every other species: `[ { "url": <url>, .. } ]`.
pub const CAT_API: &'static str = "https://api.thecatapi.com/v1/images/search";

/// Which photo endpoint, and so which reply envelope, a species uses.
#[derive(Debug, Clone, Copy, PartialEq, Eq, Structural)]
pub enum ImageSource {
    Dog,
    Cat,
}

/// The photo endpoint for a species: dogs have their own, and every other
/// tag is looked up as a cat.
pub fn image_source(kind: &PetKind) -> (r: ImageSource)
    ensures
        r == (if kind.is_dog() {
            ImageSource::Dog
        } else {
            ImageSource::Cat
        }),
{
    if kind.is_dog_kind() {
        ImageSource::Dog
    } else {
        ImageSource::Cat
    }
}

impl ImageSource {
    /// The address to request.
    pub fn endpoint(&self) -> (r: &'static str)
        ensures
            *self == ImageSource::Dog ==> r == DOG_API,
            *self == ImageSource::Cat ==> r == CAT_API,
    {
        match self {
            ImageSource::Dog => DOG_API,
            ImageSource::Cat => CAT_API,
        }
    }
}

/// How a photo request ended, once its body has been read as an envelope.
#[derive(Debug)]
pub enum ImageReply {
    /// The body read as the dog envelope.
    Dog(DogJSON),
    /// The body read as the cat envelope.
    Cat(CatJSON),
    /// The request failed, or its body is not the expected envelope.
    Unreadable,
}

/// The photo url that `reply` gives for a request to `source`: the envelope
/// must be the one that `source` answers with.
pub open spec fn image_url(source: ImageSource, reply: ImageReply) -> Option<String> {
    match reply {
        ImageReply::Dog(d) => if source == ImageSource::Dog {
            Some(d.message)
        } else {
            None
        },
        ImageReply::Cat(c) => if source == ImageSource::Cat {
            Some(c.item.url)
        } else {
            None
        },
        ImageReply::Unreadable => None,
    }
}

/// The update that ends a photo request: always one, the url where the reply
/// gives one and no photo otherwise, so that no earlier photo stays shown.
pub fn image_update(source: ImageSource, reply: ImageReply) -> (r: RenderEvent)
    ensures
        r == RenderEvent::SetPetImage(image_url(source, reply)),
{
    let url = match reply {
        ImageReply::Dog(d) => match source {
            ImageSource::Dog => Some(d.inner()),
            ImageSource::Cat => None,
        },
        ImageReply::Cat(c) => match source {
            ImageSource::Cat => Some(c.inner().url),
            ImageSource::Dog => None,
        },
        ImageReply::Unreadable => None,
    };
    RenderEvent::SetPetImage(url)
}

/// A storage operation that the worker asks of the store.
#[derive(Debug, PartialEq)]
pub enum StoreRequest {
    /// Read the record with this id.
    GetOne(i64),
    /// Delete the record with this id.
    DeleteOne(i64),
    /// Persist this record; the store assigns its id.
    InsertOne(Pet),
    /// Read every record, in the store's order.
    GetAll,
}

/// The store's answer to a [`StoreRequest`].
#[derive(Debug, PartialEq)]
pub enum StoreReply {
    /// The record read by id, or none where no record has it.
    Found(Option<Pet>),
    /// The number of records that a delete removed.
    Deleted(u64),
    /// The record as persisted, with the id the store gave it.
    Inserted(Pet),
    /// Every record.
    Listed(Vec<Pet>),
    /// The operation failed.
    Failed,
}

/// What the worker waits for.
#[derive(Debug, PartialEq)]
pub enum Awaiting {
    /// Nothing: the worker takes the next command.
    Command,
    /// The record of a read.
    Record,
    /// The outcome of a delete.
    Deletion,
    /// The record of an insert.
    Insertion,
    /// A full list, to be followed by selecting `then_select` where it is a
    /// record, and by a repaint where `repaint` holds.
    List { then_select: Option<Pet>, repaint: bool },
}

/// What the worker's owner does next.
#[derive(Debug, PartialEq)]
pub enum WorkerAction {
    /// Run this storage operation and hand its reply to [`Worker::resume`].
    Query(StoreRequest),
    /// Start a photo request to this source without waiting for it; its end
    /// goes through [`image_update`].
    Fetch(ImageSource),
    /// Send these updates, in order, then wake the interface where `repaint`.
    Emit { updates: Vec<RenderEvent>, repaint: bool },
    /// Nothing: the command is done and nothing is reported.
    Rest,
}

/// The mathematical content of a [`WorkerAction`].
pub enum ActionView {
    Query(StoreRequest),
    Fetch(ImageSource),
    Emit(Seq<RenderEvent>, bool),
    Rest,
}

impl View for WorkerAction {
    type V = ActionView;

    open spec fn view(&self) -> ActionView {
        match self {
            WorkerAction::Query(q) => ActionView::Query(*q),
            WorkerAction::Fetch(f) => ActionView::Fetch(*f),
            WorkerAction::Emit { updates, repaint } => ActionView::Emit(updates@, *repaint),
            WorkerAction::Rest => ActionView::Rest,
        }
    }
}

/// What the worker waits for after taking `cmd`.
pub open spec fn after_command(cmd: BackendEvent) -> Awaiting {
    match cmd {
        BackendEvent::FetchPetImage(_) => Awaiting::Command,
        BackendEvent::GetPetDB(_) => Awaiting::Record,
        BackendEvent::DeletePetDB(_) => Awaiting::Deletion,
        BackendEvent::InsertPetDB(_) => Awaiting::Insertion,
    }
}

/// What the worker does on taking `cmd`.
pub open spec fn command_action(cmd: BackendEvent) -> ActionView {
    match cmd {
        BackendEvent::FetchPetImage(kind) => ActionView::Fetch(if kind.is_dog() {
            ImageSource::Dog
        } else {
            ImageSource::Cat
        }),
        BackendEvent::GetPetDB(id) => ActionView::Query(StoreRequest::GetOne(id)),
        BackendEvent::DeletePetDB(id) => ActionView::Query(StoreRequest::DeleteOne(id)),
        BackendEvent::InsertPetDB(pet) => ActionView::Query(StoreRequest::InsertOne(pet)),
    }
}

/// The updates that a full list gives: the list, then the record to select
/// where there is one.
pub open spec fn list_updates(then_select: Option<Pet>, pets: Vec<Pet>) -> Seq<RenderEvent> {
    match then_select {
        Some(p) => seq![RenderEvent::SetPets(pets), RenderEvent::SetSelectedPet(Some(p))],
        None => seq![RenderEvent::SetPets(pets)],
    }
}

/// What the worker waits for after `reply` comes while it waits for `awaiting`.
pub open spec fn after_reply(awaiting: Awaiting, reply: StoreReply) -> Awaiting {
    match (awaiting, reply) {
        (Awaiting::Deletion, StoreReply::Deleted(n)) => if n > 0 {
            Awaiting::List { then_select: None, repaint: true }
        } else {
            Awaiting::Command
        },
        (Awaiting::Insertion, StoreReply::Inserted(p)) => if p.id != UNSAVED_ID {
            Awaiting::List { then_select: Some(p), repaint: true }
        } else {
            Awaiting::Command
        },
        _ => Awaiting::Command,
    }
}

/// What the worker does when `reply` comes while it waits for `awaiting`.
///
/// A found record is selected, with a repaint. A delete that removed a
/// record, or an insert that came back with a store id, is followed by a full
/// read; that list is sent, then the inserted record is selected. Every
/// failure, a read that found nothing and a delete that removed nothing end
/// the command with no update.
pub open spec fn reply_action(awaiting: Awaiting, reply: StoreReply) -> ActionView {
    match (awaiting, reply) {
        (Awaiting::Record, StoreReply::Found(Some(p))) => ActionView::Emit(
            seq![RenderEvent::SetSelectedPet(Some(p))],
            true,
        ),
        (Awaiting::Deletion, StoreReply::Deleted(n)) => if n > 0 {
            ActionView::Query(StoreRequest::GetAll)
        } else {
            ActionView::Rest
        },
        (Awaiting::Insertion, StoreReply::Inserted(p)) => if p.id != UNSAVED_ID {
            ActionView::Query(StoreRequest::GetAll)
        } else {
            ActionView::Rest
        },
        (Awaiting::List { then_select, repaint }, StoreReply::Listed(pets)) => ActionView::Emit(
            list_updates(then_select, pets),
            repaint,
        ),
        _ => ActionView::Rest,
    }
}

/// The backend worker's decisions. It runs one storage operation at a time:
/// it takes a command only while it waits for none, and it asks for a storage
/// operation only by starting to wait for that operation's reply.
pub struct Worker {
    pub awaiting: Awaiting,
}

impl Worker {
    /// Whether the worker waits for no storage reply.
    pub open spec fn is_idle(&self) -> bool {
        self.awaiting is Command
    }

    /// A worker that waits for nothing.
    pub fn new() -> (r: Worker)
        ensures
            r.is_idle(),
    {
        Worker { awaiting: Awaiting::Command }
    }

    /// On start: read every record, to be sent as the first list.
    pub fn startup(&mut self) -> (r: WorkerAction)
        requires
            old(self).is_idle(),
        ensures
            r@ == ActionView::Query(StoreRequest::GetAll),
            final(self).awaiting == (Awaiting::List { then_select: None, repaint: false }),
    {
        self.awaiting = Awaiting::List { then_select: None, repaint: false };
        WorkerAction::Query(StoreRequest::GetAll)
    }

    /// Take one command. A photo lookup starts at once and leaves the worker
    /// idle; a read, a delete or an insert becomes a storage operation that
    /// the worker then waits for.
    pub fn accept(&mut self, cmd: BackendEvent) -> (r: WorkerAction)
        requires
            old(self).is_idle(),
        ensures
            r@ == command_action(cmd),
            final(self).awaiting == after_command(cmd),
    {
        match cmd {
            BackendEvent::FetchPetImage(kind) => WorkerAction::Fetch(image_source(&kind)),
            BackendEvent::GetPetDB(id) => {
                self.awaiting = Awaiting::Record;
                WorkerAction::Query(StoreRequest::GetOne(id))
            },
            BackendEvent::DeletePetDB(id) => {
                self.awaiting = Awaiting::Deletion;
                WorkerAction::Query(StoreRequest::DeleteOne(id))
            },
            BackendEvent::InsertPetDB(pet) => {
                self.awaiting = Awaiting::Insertion;
                WorkerAction::Query(StoreRequest::InsertOne(pet))
            },
        }
    }

    /// Take the reply to the storage operation that the worker waits for.
    pub fn resume(&mut self, reply: StoreReply) -> (r: WorkerAction)
        requires
            !old(self).is_idle(),
        ensures
            r@ == reply_action(old(self).awaiting, reply),
            final(self).awaiting == after_reply(old(self).awaiting, reply),
    {
        let mut awaiting = Awaiting::Command;
        core::mem::swap(&mut self.awaiting, &mut awaiting);
        match (awaiting, reply) {
            (Awaiting::Record, StoreReply::Found(Some(p))) => {
                let mut updates: Vec<RenderEvent> = Vec::new();
                updates.push(RenderEvent::SetSelectedPet(Some(p)));
                proof {
                    assert(updates@ =~= seq![RenderEvent::SetSelectedPet(Some(p))]);
                }
                WorkerAction::Emit { updates, repaint: true }
            },
            (Awaiting::Deletion, StoreReply::Deleted(n)) => {
                if n > 0 {
                    self.awaiting = Awaiting::List { then_select: None, repaint: true };
                    WorkerAction::Query(StoreRequest::GetAll)
                } else {
                    WorkerAction::Rest
                }
            },
            (Awaiting::Insertion, StoreReply::Inserted(p)) => {
                if p.id() != UNSAVED_ID {
                    self.awaiting = Awaiting::List { then_select: Some(p), repaint: true };
                    WorkerAction::Query(StoreRequest::GetAll)
                } else {
                    WorkerAction::Rest
                }
            },
            (Awaiting::List { then_select, repaint }, StoreReply::Listed(pets)) => {
                let ghost listed = pets;
                let ghost selecting = then_select;
                let mut updates: Vec<RenderEvent> = Vec::new();
                updates.push(RenderEvent::SetPets(pets));
                match then_select {
                    Some(p) => updates.push(RenderEvent::SetSelectedPet(Some(p))),
                    None => {},
                }
                proof {
                    assert(updates@ =~= list_updates(selecting, listed));
                }
                WorkerAction::Emit { updates, repaint }
            },
            _ => WorkerAction::Rest,
        }
    }
}

} // verus!
