//! Properties of the message loop as a whole, proved over the contracts of
//! the interface state and the backend worker.
use vstd::prelude::*;

use crate::event::{BackendEvent, RenderEvent};
use crate::item::{Pet, UNSAVED_ID};
use crate::state::{apply_update, apply_updates, holds_id, AppView};
use crate::worker::{
    after_command, after_reply, command_action, image_url, reply_action, ActionView, Awaiting,
    ImageReply, ImageSource, StoreReply, StoreRequest,
};

verus! {

/// A new snapshot clears a selection whose id it does not hold, and leaves
/// any selection it keeps among its records.
pub proof fn lemma_stale_selection_cleared(s: AppView, pets: Vec<Pet>)
    ensures
        ({
            let t = apply_update(s, RenderEvent::SetPets(pets));
            &&& (s.selected matches Some(p) && !holds_id(pets@, p.id)) ==> t.selected is None
            &&& (t.selected matches Some(p) ==> holds_id(t.pets, p.id))
        }),
{
}

/// After any non-empty run of snapshots, the selection is empty or its id is
/// held by the last snapshot.
pub proof fn lemma_selection_within_snapshots(s: AppView, evs: Seq<RenderEvent>)
    requires
        evs.len() > 0,
        forall|i: int| 0 <= i < evs.len() ==> #[trigger] evs[i] is SetPets,
    ensures
        ({
            let t = apply_updates(s, evs);
            t.selected matches Some(p) ==> holds_id(t.pets, p.id)
        }),
    decreases evs.len(),
{
    let first = apply_update(s, evs[0]);
    if let RenderEvent::SetPets(pets) = evs[0] {
        lemma_stale_selection_cleared(s, pets);
    }
    if evs.len() > 1 {
        let rest = evs.drop_first();
        assert forall|i: int| 0 <= i < rest.len() implies #[trigger] rest[i] is SetPets by {
            assert(rest[i] == evs[i + 1]);
        }
        lemma_selection_within_snapshots(first, rest);
    } else {
        assert(evs.drop_first() =~= Seq::<RenderEvent>::empty());
    }
}

/// An insert whose record comes back from the store goes on to a full read
/// only when the store gave the record an id; that read's list is then sent
/// and followed by selecting the inserted record, which the interface shows
/// as its selection.
pub proof fn lemma_insert_round_trip(s: AppView, inserted: Pet, pets: Vec<Pet>)
    ensures
        (inserted.id != UNSAVED_ID) <==> reply_action(
            Awaiting::Insertion,
            StoreReply::Inserted(inserted),
        ) == ActionView::Query(StoreRequest::GetAll),
        inserted.id != UNSAVED_ID ==> ({
            let waiting = after_reply(Awaiting::Insertion, StoreReply::Inserted(inserted));
            let updates = seq![
                RenderEvent::SetPets(pets),
                RenderEvent::SetSelectedPet(Some(inserted)),
            ];
            &&& reply_action(waiting, StoreReply::Listed(pets)) == ActionView::Emit(updates, true)
            &&& apply_updates(s, updates).selected == Some(inserted)
            &&& apply_updates(s, updates).pets == pets@
        }),
{
    let updates = seq![RenderEvent::SetPets(pets), RenderEvent::SetSelectedPet(Some(inserted))];
    let mid = apply_update(s, updates[0]);
    assert(updates.drop_first() =~= seq![RenderEvent::SetSelectedPet(Some(inserted))]);
    assert(updates.drop_first().drop_first() =~= Seq::<RenderEvent>::empty());
    assert(apply_updates(s, updates) == apply_updates(mid, updates.drop_first()));
    assert(apply_updates(mid, updates.drop_first()) == apply_updates(
        apply_update(mid, RenderEvent::SetSelectedPet(Some(inserted))),
        Seq::<RenderEvent>::empty(),
    ));
}

/// A delete that removed a record is followed by a full read, and that list
/// alone is sent; when it no longer holds the id, neither do the interface's
/// records nor its selection. A delete that removed nothing, or failed, sends
/// no list and ends the command.
pub proof fn lemma_delete_then_refresh(s: AppView, id: i64, removed: u64, pets: Vec<Pet>)
    requires
        !holds_id(pets@, id),
    ensures
        removed == 0 ==> reply_action(Awaiting::Deletion, StoreReply::Deleted(removed))
            == ActionView::Rest,
        removed == 0 ==> after_reply(Awaiting::Deletion, StoreReply::Deleted(removed))
            == Awaiting::Command,
        reply_action(Awaiting::Deletion, StoreReply::Failed) == ActionView::Rest,
        after_reply(Awaiting::Deletion, StoreReply::Failed) == Awaiting::Command,
        removed > 0 ==> ({
            let waiting = after_reply(Awaiting::Deletion, StoreReply::Deleted(removed));
            let updates = seq![RenderEvent::SetPets(pets)];
            let t = apply_updates(s, updates);
            &&& reply_action(Awaiting::Deletion, StoreReply::Deleted(removed)) == ActionView::Query(
                StoreRequest::GetAll,
            )
            &&& reply_action(waiting, StoreReply::Listed(pets)) == ActionView::Emit(updates, true)
            &&& !holds_id(t.pets, id)
            &&& !(t.selected matches Some(p) && p.id == id)
        }),
{
    let updates = seq![RenderEvent::SetPets(pets)];
    assert(updates.drop_first() =~= Seq::<RenderEvent>::empty());
    assert(apply_updates(s, updates) == apply_updates(
        apply_update(s, RenderEvent::SetPets(pets)),
        Seq::<RenderEvent>::empty(),
    ));
    lemma_stale_selection_cleared(s, pets);
}

/// A photo request whose reply cannot be read, or is not the envelope its
/// endpoint answers with, clears the photo shown, whatever was shown before.
pub proof fn lemma_image_fallback(s: AppView, source: ImageSource, reply: ImageReply)
    requires
        reply is Unreadable || (source == ImageSource::Dog && reply is Cat) || (source
            == ImageSource::Cat && reply is Dog),
    ensures
        image_url(source, reply) is None,
        apply_update(s, RenderEvent::SetPetImage(image_url(source, reply))).image is None,
{
}

/// The worker asks for a storage operation exactly when it starts to wait
/// for that operation's reply, on a command as on a reply. Since it takes a
/// command only while it waits for nothing, no two storage operations are
/// ever outstanding at once.
pub proof fn lemma_one_storage_operation_at_a_time(
    cmd: BackendEvent,
    awaiting: Awaiting,
    reply: StoreReply,
)
    ensures
        command_action(cmd) is Query <==> !(after_command(cmd) is Command),
        reply_action(awaiting, reply) is Query <==> !(after_reply(awaiting, reply) is Command),
{
}

} // verus!
