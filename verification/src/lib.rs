//! A small sticky-notes state store with an effect queue.
//!
//! The store holds the list of notes, the draft text for the next note, and a
//! memo cache of previously measured layout sizes. User interactions never
//! mutate the store directly: they are described as [`effect::Effect`] values,
//! queued in order, and drained once per frame by
//! [`state::AppState::apply_effects`].

pub mod cache;
pub mod effect;
pub mod intents;
pub mod laws;
pub mod note;
pub mod state;
