use vstd::prelude::*;

use crate::event::{BackendEvent, RenderEvent};
use crate::form::{AddForm, FormError};
use crate::item::Pet;

verus! {

/// What the interface shows: the selection, the records, the photo and the
/// add form.
#[derive(Debug)]
pub struct AppState {
    pub selected_pet: Option<Pet>,
    pub pets: Vec<Pet>,
    pub pet_image: Option<String>,
    pub add_form: AddForm,
}

/// The mathematical content of an [`AppState`].
pub struct AppView {
    pub selected: Option<Pet>,
    pub pets: Seq<Pet>,
    pub image: Option<String>,
    pub form: AddForm,
}

impl View for AppState {
    type V = AppView;

    open spec fn view(&self) -> AppView {
        AppView {
            selected: self.selected_pet,
            pets: self.pets@,
            image: self.pet_image,
            form: self.add_form,
        }
    }
}

/// Whether some record of `pets` has the id `id`.
pub open spec fn holds_id(pets: Seq<Pet>, id: i64) -> bool {
    exists|i: int| 0 <= i < pets.len() && #[trigger] pets[i].id == id
}

/// The selection that survives a new snapshot `pets`: it is cleared where its
/// id is absent from the snapshot, and kept otherwise.
pub open spec fn kept_selection(selected: Option<Pet>, pets: Seq<Pet>) -> Option<Pet> {
    match selected {
        Some(p) => if holds_id(pets, p.id) {
            Some(p)
        } else {
            None
        },
        None => None,
    }
}

/// The state after applying one update to `s`.
pub open spec fn apply_update(s: AppView, ev: RenderEvent) -> AppView {
    match ev {
        RenderEvent::SetPets(pets) => AppView {
            selected: kept_selection(s.selected, pets@),
            pets: pets@,
            ..s
        },
        RenderEvent::SetPetImage(image) => AppView { image, ..s },
        RenderEvent::SetSelectedPet(selected) => AppView { selected, ..s },
    }
}

/// The state after applying `evs` to `s`, in order.
pub open spec fn apply_updates(s: AppView, evs: Seq<RenderEvent>) -> AppView
    decreases evs.len(),
{
    if evs.len() == 0 {
        s
    } else {
        apply_updates(apply_update(s, evs[0]), evs.drop_first())
    }
}

/// `apply_updates` over `evs` followed by one more update.
pub proof fn lemma_apply_updates_push(s: AppView, evs: Seq<RenderEvent>, ev: RenderEvent)
    ensures
        apply_updates(s, evs.push(ev)) == apply_update(apply_updates(s, evs), ev),
    decreases evs.len(),
{
    if evs.len() > 0 {
        assert(evs.push(ev)[0] == evs[0]);
        assert(evs.push(ev).drop_first() =~= evs.drop_first().push(ev));
        lemma_apply_updates_push(apply_update(s, evs[0]), evs.drop_first(), ev);
    } else {
        assert(evs.push(ev)[0] == ev);
        assert(evs.push(ev).drop_first() =~= Seq::<RenderEvent>::empty());
        assert(apply_updates(apply_update(s, ev), Seq::<RenderEvent>::empty()) == apply_update(s, ev));
        assert(evs =~= Seq::<RenderEvent>::empty());
    }
}

/// Whether two records agree on every field, texts compared by content.
pub open spec fn same_fields(a: Pet, b: Pet) -> bool {
    &&& a.id == b.id
    &&& a.age == b.age
    &&& a.name@ == b.name@
    &&& a.kind.0@ == b.kind.0@
}

/// Whether the selection `selected` is a record with the same fields as `pet`.
pub open spec fn selects(selected: Option<Pet>, pet: Pet) -> bool {
    match selected {
        Some(current) => same_fields(current, pet),
        None => false,
    }
}

/// Whether two records agree on every field.
pub fn same_pet(a: &Pet, b: &Pet) -> (r: bool)
    ensures
        r == same_fields(*a, *b),
{
    a.id == b.id && a.age == b.age && a.name == b.name && a.kind.0 == b.kind.0
}

impl AppState {
    /// No selection, no records, no photo and a cleared form.
    pub fn new() -> (r: AppState)
        ensures
            r@.selected is None,
            r@.pets.len() == 0,
            r@.image is None,
            r@.form.is_cleared(),
    {
        AppState { selected_pet: None, pets: Vec::new(), pet_image: None, add_form: AddForm::new() }
    }

    /// Take a new snapshot of the records, clearing a selection whose id it
    /// no longer holds.
    pub fn update_pets(&mut self, pets: Vec<Pet>)
        ensures
            final(self)@ == apply_update(old(self)@, RenderEvent::SetPets(pets)),
    {
        let mut clear = false;
        if let Some(ref selected_pet) = self.selected_pet {
            let id = selected_pet.id();
            let mut present = false;
            let mut i: usize = 0;
            while i < pets.len()
                invariant
                    i <= pets@.len(),
                    present == exists|j: int| 0 <= j < i && #[trigger] pets@[j].id == id,
                decreases pets@.len() - i,
            {
                if pets[i].id() == id {
                    present = true;
                }
                i = i + 1;
            }
            clear = !present;
        }
        if clear {
            self.selected_pet = None;
        }
        self.pets = pets;
    }

    /// Reset the add form to a hidden, blank draft.
    pub fn clear_add_form(&mut self)
        ensures
            final(self)@ == (AppView { form: final(self).add_form, ..old(self)@ }),
            final(self).add_form.is_cleared(),
    {
        self.add_form = AddForm::new();
    }

    /// Apply one update from the backend.
    pub fn apply(&mut self, ev: RenderEvent)
        ensures
            final(self)@ == apply_update(old(self)@, ev),
    {
        match ev {
            RenderEvent::SetPets(pets) => self.update_pets(pets),
            RenderEvent::SetPetImage(image) => self.pet_image = image,
            RenderEvent::SetSelectedPet(pet) => self.selected_pet = pet,
        }
    }

    /// Apply a batch of updates in the order they were sent.
    pub fn apply_all(&mut self, evs: Vec<RenderEvent>)
        ensures
            final(self)@ == apply_updates(old(self)@, evs@),
    {
        let ghost start = self@;
        let ghost all = evs@;
        let mut rest = evs;
        let mut k: usize = 0;
        proof {
            assert(all.len() == rest.len());
            assert(all.take(0) =~= Seq::<RenderEvent>::empty());
            assert(all.skip(0) =~= all);
        }
        while rest.len() > 0
            invariant
                all.len() <= usize::MAX,
                k + rest@.len() == all.len(),
                rest@ == all.skip(k as int),
                self@ == apply_updates(start, all.take(k as int)),
            decreases rest@.len(),
        {
            let ev = rest.remove(0);
            proof {
                assert(ev == all[k as int]);
                assert(all.take(k as int + 1) =~= all.take(k as int).push(ev));
                assert(rest@ =~= all.skip(k as int + 1));
                lemma_apply_updates_push(start, all.take(k as int), ev);
            }
            self.apply(ev);
            k = k + 1;
        }
        proof {
            assert(all.take(k as int) =~= all);
        }
    }

    /// Show or hide the add form.
    pub fn toggle_add_form(&mut self)
        ensures
            final(self).add_form.show == !old(self).add_form.show,
            final(self).add_form.name == old(self).add_form.name,
            final(self).add_form.age == old(self).add_form.age,
            final(self).add_form.kind == old(self).add_form.kind,
            final(self)@ == (AppView { form: final(self).add_form, ..old(self)@ }),
    {
        self.add_form.show = !self.add_form.show;
    }

    /// Submit the add form. A draft whose age is an integer gives an insert
    /// of the draft record and, at once, a photo lookup for its species, and
    /// the form is cleared; any other draft gives no command and changes
    /// nothing.
    pub fn handle_add_pet_submission(&mut self) -> (cmds: Vec<BackendEvent>)
        ensures
            old(self).add_form.to_pet_ok() ==> {
                &&& cmds@.len() == 2
                &&& cmds@[0] matches BackendEvent::InsertPetDB(p)
                    && old(self).add_form.describes(p, old(self).add_form.age_value())
                &&& cmds@[1] matches BackendEvent::FetchPetImage(k)
                    && cmds@[0] matches BackendEvent::InsertPetDB(p) && k == p.kind
                &&& final(self)@ == (AppView { form: final(self).add_form, ..old(self)@ })
                &&& final(self).add_form.is_cleared()
            },
            !old(self).add_form.to_pet_ok() ==> {
                &&& cmds@.len() == 0
                &&& *final(self) == *old(self)
            },
    {
        let mut cmds: Vec<BackendEvent> = Vec::new();
        match self.add_form.to_pet() {
            Ok(pet) => {
                let kind = pet.kind.duplicate();
                cmds.push(BackendEvent::InsertPetDB(pet));
                cmds.push(BackendEvent::FetchPetImage(kind));
                self.clear_add_form();
            },
            Err(FormError::InvalidAge) => {},
        }
        cmds
    }

    /// Pick `pet` from the list. Where it differs from the current selection
    /// it becomes the selection at once, and a read of its record and a photo
    /// lookup for its species are requested; otherwise nothing happens.
    pub fn select_pet(&mut self, pet: Pet) -> (cmds: Vec<BackendEvent>)
        ensures
            !selects(old(self).selected_pet, pet) ==> {
                &&& cmds@.len() == 2
                &&& cmds@[0] == BackendEvent::GetPetDB(pet.id)
                &&& cmds@[1] == BackendEvent::FetchPetImage(pet.kind)
                &&& final(self)@ == (AppView { selected: Some(pet), ..old(self)@ })
            },
            selects(old(self).selected_pet, pet) ==> {
                &&& cmds@.len() == 0
                &&& *final(self) == *old(self)
            },
    {
        let mut cmds: Vec<BackendEvent> = Vec::new();
        let unchanged = match &self.selected_pet {
            Some(current) => same_pet(current, &pet),
            None => false,
        };
        if !unchanged {
            cmds.push(BackendEvent::GetPetDB(pet.id()));
            cmds.push(BackendEvent::FetchPetImage(pet.kind.duplicate()));
            self.selected_pet = Some(pet);
        }
        cmds
    }

    /// Ask for the selected record to be deleted; nothing where no record is
    /// selected.
    pub fn request_delete(&self) -> (cmd: Option<BackendEvent>)
        ensures
            match self.selected_pet {
                Some(p) => cmd == Some(BackendEvent::DeletePetDB(p.id)),
                None => cmd is None,
            },
    {
        match &self.selected_pet {
            Some(p) => Some(BackendEvent::DeletePetDB(p.id())),
            None => None,
        }
    }
}

} // verus!
