//! A pet registry's presentation state, the commands and updates that pass
//! between its interface and its backend worker, and the worker's decisions.
//!
//! The interface owns an [`AppState`] and changes it only by applying the
//! [`RenderEvent`]s it receives; user actions on it give [`BackendEvent`]s.
//! The backend's [`Worker`] turns each command into at most one storage
//! operation at a time and each storage reply into updates.
pub mod event;
pub mod form;
pub mod item;
pub mod laws;
pub mod state;
pub mod worker;

pub use event::{BackendEvent, EventHandle, Handler, RenderEvent};
pub use form::{AddForm, FormError};
pub use item::{CatJSON, CatJSONInner, DogJSON, Pet, PetKind, UNSAVED_ID};
pub use state::AppState;
pub use worker::{
    image_source, image_update, Awaiting, ImageReply, ImageSource, StoreReply, StoreRequest,
    Worker, WorkerAction, CAT_API, DOG_API,
};
