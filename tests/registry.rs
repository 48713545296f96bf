use std::sync::mpsc::channel;

use pet_registry::{
    image_source, image_update, AddForm, AppState, Awaiting, BackendEvent, CatJSON, CatJSONInner,
    DogJSON, EventHandle, FormError, Handler, ImageReply, ImageSource, Pet, PetKind, RenderEvent,
    StoreReply, StoreRequest, Worker, WorkerAction, CAT_API, DOG_API, UNSAVED_ID,
};

fn pet(id: i64, name: &str, age: i64, kind: &str) -> Pet {
    Pet::new(id, name.to_string(), age, PetKind::new(kind.to_string()))
}

fn draft(name: &str, age: &str, kind: &str) -> AddForm {
    AddForm { show: true, name: name.to_string(), age: age.to_string(), kind: kind.to_string() }
}

fn state_with(pets: Vec<Pet>, selected: Option<Pet>) -> AppState {
    let mut s = AppState::new();
    s.pets = pets;
    s.selected_pet = selected;
    s
}

#[test]
fn pet_accessors_give_back_fields() {
    let p = pet(4, "Tom", 2, "cat");
    assert_eq!(p.id(), 4);
    assert_eq!(p.kind.inner(), "cat");
    let (id, name, age, kind) = p.inner();
    assert_eq!((id, name.as_str(), age, kind.inner()), (4, "Tom", 2, "cat"));
}

#[test]
fn envelopes_give_their_url() {
    assert_eq!(DogJSON::new("d.jpg".to_string()).inner(), "d.jpg");
    let c = CatJSON::new(CatJSONInner { url: "c.jpg".to_string() });
    assert_eq!(c.inner().url, "c.jpg");
}

#[test]
fn to_pet_reads_a_valid_draft() {
    let p = draft("Rex", "3", "dog").to_pet().unwrap();
    assert_eq!(p, pet(UNSAVED_ID, "Rex", 3, "dog"));
    assert_eq!(p.id(), -1);
}

#[test]
fn to_pet_keeps_cat_and_turns_other_kinds_into_dog() {
    assert_eq!(draft("Tom", "2", "cat").to_pet().unwrap().kind.inner(), "cat");
    assert_eq!(draft("Tweety", "1", "bird").to_pet().unwrap().kind.inner(), "dog");
    assert_eq!(draft("Nameless", "1", "").to_pet().unwrap().kind.inner(), "dog");
    assert_eq!(draft("Big", "1", "Cat").to_pet().unwrap().kind.inner(), "dog");
}

#[test]
fn to_pet_parses_signed_ages() {
    assert_eq!(draft("a", "+5", "dog").to_pet().unwrap().age, 5);
    assert_eq!(draft("a", "-7", "dog").to_pet().unwrap().age, -7);
    assert_eq!(draft("a", "0042", "dog").to_pet().unwrap().age, 42);
    assert_eq!(draft("a", "9223372036854775807", "dog").to_pet().unwrap().age, i64::MAX);
    assert_eq!(draft("a", "-9223372036854775808", "dog").to_pet().unwrap().age, i64::MIN);
}

#[test]
fn to_pet_rejects_ages_that_are_not_integers() {
    for age in ["abc", "", " 3", "3 ", "+", "-", "3.5", "9223372036854775808", "1e3"] {
        assert_eq!(draft("a", age, "dog").to_pet(), Err(FormError::InvalidAge), "age {:?}", age);
    }
}

#[test]
fn default_form_is_hidden_and_blank() {
    let f = AddForm::default();
    assert!(!f.show);
    assert!(f.name.is_empty() && f.age.is_empty() && f.kind.is_empty());
}

#[test]
fn update_pets_clears_a_stale_selection() {
    let rex = pet(1, "Rex", 3, "dog");
    let mut s = state_with(vec![rex.clone()], Some(rex.clone()));
    s.update_pets(vec![pet(2, "Tom", 2, "cat")]);
    assert_eq!(s.selected_pet, None);
    assert_eq!(s.pets, vec![pet(2, "Tom", 2, "cat")]);
}

#[test]
fn update_pets_keeps_a_selection_whose_id_remains() {
    let rex = pet(1, "Rex", 3, "dog");
    let mut s = state_with(vec![rex.clone()], Some(rex.clone()));
    s.update_pets(vec![pet(2, "Tom", 2, "cat"), pet(1, "Rex II", 4, "dog")]);
    assert_eq!(s.selected_pet, Some(rex));
    assert_eq!(s.pets.len(), 2);
}

#[test]
fn update_pets_with_an_empty_list_clears_selection() {
    let rex = pet(1, "Rex", 3, "dog");
    let mut s = state_with(vec![rex.clone()], Some(rex));
    s.update_pets(Vec::new());
    assert_eq!(s.selected_pet, None);
    assert!(s.pets.is_empty());
}

#[test]
fn stale_selection_over_a_run_of_snapshots() {
    let rex = pet(1, "Rex", 3, "dog");
    let mut s = state_with(Vec::new(), Some(rex.clone()));
    s.apply_all(vec![
        RenderEvent::SetPets(vec![rex.clone()]),
        RenderEvent::SetPets(vec![pet(2, "Tom", 2, "cat")]),
        RenderEvent::SetPets(vec![rex.clone()]),
    ]);
    assert_eq!(s.selected_pet, None);
    assert_eq!(s.pets, vec![rex]);
}

#[test]
fn apply_sets_image_and_selection() {
    let mut s = AppState::new();
    s.apply(RenderEvent::SetPetImage(Some("a.jpg".to_string())));
    assert_eq!(s.pet_image.as_deref(), Some("a.jpg"));
    s.apply(RenderEvent::SetSelectedPet(Some(pet(3, "Rex", 3, "dog"))));
    assert_eq!(s.selected_pet, Some(pet(3, "Rex", 3, "dog")));
    s.apply(RenderEvent::SetSelectedPet(None));
    assert_eq!(s.selected_pet, None);
    assert_eq!(s.pet_image.as_deref(), Some("a.jpg"));
}

#[test]
fn apply_all_keeps_arrival_order() {
    let mut s = AppState::new();
    s.apply_all(vec![
        RenderEvent::SetPetImage(Some("first.jpg".to_string())),
        RenderEvent::SetPetImage(Some("second.jpg".to_string())),
    ]);
    assert_eq!(s.pet_image.as_deref(), Some("second.jpg"));
    s.apply_all(Vec::new());
    assert_eq!(s.pet_image.as_deref(), Some("second.jpg"));
}

#[test]
fn submission_of_a_valid_draft_sends_insert_then_image_and_clears_form() {
    let mut s = AppState::new();
    s.add_form = draft("Rex", "3", "dog");
    let cmds = s.handle_add_pet_submission();
    assert_eq!(
        cmds,
        vec![
            BackendEvent::InsertPetDB(pet(UNSAVED_ID, "Rex", 3, "dog")),
            BackendEvent::FetchPetImage(PetKind::new("dog".to_string())),
        ]
    );
    assert_eq!(s.add_form, AddForm::new());
}

#[test]
fn submission_with_a_bad_age_sends_nothing_and_keeps_the_draft() {
    let mut s = AppState::new();
    s.add_form = draft("Rex", "abc", "dog");
    let cmds = s.handle_add_pet_submission();
    assert!(cmds.is_empty());
    assert_eq!(s.add_form, draft("Rex", "abc", "dog"));
    assert_eq!(s.selected_pet, None);
}

#[test]
fn toggling_the_form_keeps_its_fields() {
    let mut s = AppState::new();
    s.add_form = draft("Rex", "3", "dog");
    s.toggle_add_form();
    assert!(!s.add_form.show);
    assert_eq!(s.add_form.name, "Rex");
    s.toggle_add_form();
    assert!(s.add_form.show);
}

#[test]
fn clear_add_form_resets_the_draft() {
    let mut s = AppState::new();
    s.add_form = draft("Rex", "3", "dog");
    s.clear_add_form();
    assert_eq!(s.add_form, AddForm::new());
}

#[test]
fn selecting_a_pet_reads_it_and_fetches_its_image() {
    let tom = pet(2, "Tom", 2, "cat");
    let mut s = state_with(vec![tom.clone()], None);
    let cmds = s.select_pet(tom.clone());
    assert_eq!(
        cmds,
        vec![
            BackendEvent::GetPetDB(2),
            BackendEvent::FetchPetImage(PetKind::new("cat".to_string())),
        ]
    );
    assert_eq!(s.selected_pet, Some(tom.clone()));
    assert!(s.select_pet(tom).is_empty());
}

#[test]
fn delete_request_names_the_selected_id() {
    let s = state_with(Vec::new(), Some(pet(9, "Rex", 3, "dog")));
    assert_eq!(s.request_delete(), Some(BackendEvent::DeletePetDB(9)));
    assert_eq!(AppState::new().request_delete(), None);
}

#[test]
fn image_source_depends_on_the_dog_tag_alone() {
    assert_eq!(image_source(&PetKind::new("dog".to_string())), ImageSource::Dog);
    assert_eq!(image_source(&PetKind::new("cat".to_string())), ImageSource::Cat);
    assert_eq!(image_source(&PetKind::new("hamster".to_string())), ImageSource::Cat);
    assert_eq!(ImageSource::Dog.endpoint(), DOG_API);
    assert_eq!(ImageSource::Cat.endpoint(), CAT_API);
    assert_eq!(DOG_API, "https://dog.ceo/api/breeds/image/random");
    assert_eq!(CAT_API, "https://api.thecatapi.com/v1/images/search");
}

#[test]
fn image_update_gives_the_envelope_url() {
    let dog = image_update(ImageSource::Dog, ImageReply::Dog(DogJSON::new("d.jpg".to_string())));
    assert_eq!(dog, RenderEvent::SetPetImage(Some("d.jpg".to_string())));
    let cat = image_update(
        ImageSource::Cat,
        ImageReply::Cat(CatJSON::new(CatJSONInner { url: "c.jpg".to_string() })),
    );
    assert_eq!(cat, RenderEvent::SetPetImage(Some("c.jpg".to_string())));
}

#[test]
fn malformed_dog_reply_clears_the_previous_image() {
    let mut s = AppState::new();
    s.pet_image = Some("old.jpg".to_string());
    let ev = image_update(ImageSource::Dog, ImageReply::Unreadable);
    assert_eq!(ev, RenderEvent::SetPetImage(None));
    s.apply(ev);
    assert_eq!(s.pet_image, None);
    let wrong = image_update(
        ImageSource::Dog,
        ImageReply::Cat(CatJSON::new(CatJSONInner { url: "c.jpg".to_string() })),
    );
    assert_eq!(wrong, RenderEvent::SetPetImage(None));
}

#[test]
fn worker_starts_by_reading_every_record() {
    let mut w = Worker::new();
    assert_eq!(w.startup(), WorkerAction::Query(StoreRequest::GetAll));
    let listed = w.resume(StoreReply::Listed(vec![pet(1, "Rex", 3, "dog")]));
    assert_eq!(
        listed,
        WorkerAction::Emit {
            updates: vec![RenderEvent::SetPets(vec![pet(1, "Rex", 3, "dog")])],
            repaint: false,
        }
    );
    assert_eq!(w.awaiting, Awaiting::Command);
}

#[test]
fn worker_fetches_images_without_waiting() {
    let mut w = Worker::new();
    let a = w.accept(BackendEvent::FetchPetImage(PetKind::new("dog".to_string())));
    assert_eq!(a, WorkerAction::Fetch(ImageSource::Dog));
    assert_eq!(w.awaiting, Awaiting::Command);
}

#[test]
fn worker_read_selects_the_found_record() {
    let mut w = Worker::new();
    assert_eq!(w.accept(BackendEvent::GetPetDB(1)), WorkerAction::Query(StoreRequest::GetOne(1)));
    let a = w.resume(StoreReply::Found(Some(pet(1, "Rex", 3, "dog"))));
    assert_eq!(
        a,
        WorkerAction::Emit {
            updates: vec![RenderEvent::SetSelectedPet(Some(pet(1, "Rex", 3, "dog")))],
            repaint: true,
        }
    );
}

#[test]
fn worker_read_of_a_missing_record_is_silent() {
    let mut w = Worker::new();
    w.accept(BackendEvent::GetPetDB(5));
    assert_eq!(w.resume(StoreReply::Found(None)), WorkerAction::Rest);
    w.accept(BackendEvent::GetPetDB(5));
    assert_eq!(w.resume(StoreReply::Failed), WorkerAction::Rest);
    assert_eq!(w.awaiting, Awaiting::Command);
}

#[test]
fn delete_then_refresh_sends_the_new_list() {
    let mut w = Worker::new();
    let mut s = state_with(vec![pet(1, "Rex", 3, "dog"), pet(2, "Tom", 2, "cat")], Some(pet(1, "Rex", 3, "dog")));
    assert_eq!(w.accept(BackendEvent::DeletePetDB(1)), WorkerAction::Query(StoreRequest::DeleteOne(1)));
    assert_eq!(w.resume(StoreReply::Deleted(1)), WorkerAction::Query(StoreRequest::GetAll));
    let a = w.resume(StoreReply::Listed(vec![pet(2, "Tom", 2, "cat")]));
    match a {
        WorkerAction::Emit { updates, repaint } => {
            assert!(repaint);
            assert_eq!(updates, vec![RenderEvent::SetPets(vec![pet(2, "Tom", 2, "cat")])]);
            s.apply_all(updates);
        }
        other => panic!("unexpected {:?}", other),
    }
    assert!(s.pets.iter().all(|p| p.id() != 1));
    assert_eq!(s.selected_pet, None);
}

#[test]
fn deleting_a_missing_id_sends_no_list() {
    let mut w = Worker::new();
    w.accept(BackendEvent::DeletePetDB(42));
    assert_eq!(w.resume(StoreReply::Deleted(0)), WorkerAction::Rest);
    assert_eq!(w.awaiting, Awaiting::Command);
    w.accept(BackendEvent::DeletePetDB(42));
    assert_eq!(w.resume(StoreReply::Failed), WorkerAction::Rest);
}

#[test]
fn insert_round_trip_selects_the_stored_record() {
    let (to_backend, _from_ui) = channel::<BackendEvent>();
    let (_to_ui, from_backend) = channel::<RenderEvent>();
    let mut ui = Handler::new(to_backend, from_backend, AppState::new());
    ui.state.add_form = draft("Rex", "3", "dog");
    let mut cmds = ui.state.handle_add_pet_submission();
    assert_eq!(cmds.len(), 2);
    let insert = cmds.remove(0);

    let mut w = Worker::new();
    assert_eq!(
        w.accept(insert),
        WorkerAction::Query(StoreRequest::InsertOne(pet(UNSAVED_ID, "Rex", 3, "dog")))
    );
    let stored = pet(7, "Rex", 3, "dog");
    assert_eq!(w.resume(StoreReply::Inserted(stored.clone())), WorkerAction::Query(StoreRequest::GetAll));
    match w.resume(StoreReply::Listed(vec![pet(3, "Tom", 2, "cat"), stored.clone()])) {
        WorkerAction::Emit { updates, repaint } => {
            assert!(repaint);
            ui.handle_all(updates);
        }
        other => panic!("unexpected {:?}", other),
    }
    let selected = ui.state.selected_pet.clone().unwrap();
    assert_ne!(selected.id(), -1);
    assert_eq!(selected, stored);
    assert_eq!(ui.state.pets.len(), 2);
}

#[test]
fn insert_reply_without_a_store_id_is_a_failure() {
    let mut w = Worker::new();
    w.accept(BackendEvent::InsertPetDB(pet(UNSAVED_ID, "Rex", 3, "dog")));
    assert_eq!(w.resume(StoreReply::Inserted(pet(UNSAVED_ID, "Rex", 3, "dog"))), WorkerAction::Rest);
    w.accept(BackendEvent::InsertPetDB(pet(UNSAVED_ID, "Rex", 3, "dog")));
    assert_eq!(w.resume(StoreReply::Failed), WorkerAction::Rest);
}

#[test]
fn mismatched_reply_ends_the_command() {
    let mut w = Worker::new();
    w.accept(BackendEvent::GetPetDB(1));
    assert_eq!(w.resume(StoreReply::Listed(Vec::new())), WorkerAction::Rest);
    assert_eq!(w.awaiting, Awaiting::Command);
}

#[test]
fn back_to_back_commands_run_one_storage_operation_at_a_time() {
    let mut w = Worker::new();
    let first = w.accept(BackendEvent::DeletePetDB(1));
    assert!(matches!(first, WorkerAction::Query(_)));
    assert_ne!(w.awaiting, Awaiting::Command);
    assert!(matches!(w.resume(StoreReply::Deleted(1)), WorkerAction::Query(StoreRequest::GetAll)));
    assert_ne!(w.awaiting, Awaiting::Command);
    assert!(matches!(w.resume(StoreReply::Listed(Vec::new())), WorkerAction::Emit { .. }));
    assert_eq!(w.awaiting, Awaiting::Command);
    let second = w.accept(BackendEvent::GetPetDB(2));
    assert_eq!(second, WorkerAction::Query(StoreRequest::GetOne(2)));
    assert_eq!(w.awaiting, Awaiting::Record);
}

#[test]
fn handler_handles_updates_through_the_trait() {
    let (to_backend, from_ui) = channel::<BackendEvent>();
    let (to_ui, from_backend) = channel::<RenderEvent>();
    let mut ui = Handler::new(to_backend, from_backend, AppState::new());
    to_ui.send(RenderEvent::SetPets(vec![pet(1, "Rex", 3, "dog")])).unwrap();
    let ev = ui.receiver.try_recv().unwrap();
    ui.handle(ev);
    assert_eq!(ui.state.pets, vec![pet(1, "Rex", 3, "dog")]);
    ui.sender.send(BackendEvent::GetPetDB(1)).unwrap();
    assert_eq!(from_ui.try_recv().unwrap(), BackendEvent::GetPetDB(1));
}
