//! Effects: symbolic descriptions of state changes.
//!
//! User interactions enqueue effects; the store applies them in order at the
//! end of each frame. Note-addressing effects carry the note's position in the
//! list; an out-of-range position makes the effect a no-op.

use vstd::prelude::*;

verus! {

/// Mathematical model of an effect, with label text as a character sequence.
pub enum EffectModel {
    /// Replace the draft buffer.
    DraftTodo(Seq<char>),
    /// Append a new note with the given label and clear the draft.
    AddTodo(Seq<char>),
    /// Flip the note's edit mode.
    EditTodo(usize),
    /// Overwrite the note's label.
    SaveTodo(usize, Seq<char>),
    /// Flip the note's checked flag.
    CheckTodo(usize),
    /// Remove the note.
    DeleteTodo(usize),
    /// Memoize a measured layout size for a named slot.
    InsertCalculated(Seq<char>, u32),
}

/// An intent queued by the render pass and applied by the store.
///
/// Layout sizes are carried as the raw bit pattern of a single-precision
/// float, so the store never interprets them; only the caller that measures
/// and the caller that lays out convert them back.
pub enum Effect {
    DraftTodo(String),
    AddTodo(String),
    EditTodo(usize),
    SaveTodo(usize, String),
    CheckTodo(usize),
    DeleteTodo(usize),
    InsertCalculated(String, u32),
}

impl View for Effect {
    type V = EffectModel;

    open spec fn view(&self) -> EffectModel {
        match self {
            Effect::DraftTodo(text) => EffectModel::DraftTodo(text@),
            Effect::AddTodo(label) => EffectModel::AddTodo(label@),
            Effect::EditTodo(index) => EffectModel::EditTodo(*index),
            Effect::SaveTodo(index, label) => EffectModel::SaveTodo(*index, label@),
            Effect::CheckTodo(index) => EffectModel::CheckTodo(*index),
            Effect::DeleteTodo(index) => EffectModel::DeleteTodo(*index),
            Effect::InsertCalculated(slot, bits) => EffectModel::InsertCalculated(slot@, *bits),
        }
    }
}

/// The models of a queue of effects, in queue order.
pub open spec fn views_of(effects: Seq<Effect>) -> Seq<EffectModel> {
    effects.map_values(|e: Effect| e@)
}

} // verus!
