//! The decisions of the render pass.
//!
//! Rendering is read-only against the committed state: a frame shows the
//! store as it is, and every interaction is translated into effects to queue.
//! These functions are that translation. The widgets a frame draws hand them
//! plain values — the text now in a field, whether a button was clicked —
//! and they return the effects the interaction stands for, in the order the
//! store must apply them.

use vstd::prelude::*;

use crate::effect::{views_of, Effect, EffectModel};

verus! {

/// The intents of the draft row. Submitting asks the store to create the
/// note and to commit the emptied field; otherwise the field's text is
/// committed as the new draft.
pub open spec fn draft_row_intents(typed: Seq<char>, submitted: bool) -> Seq<EffectModel> {
    if submitted {
        seq![EffectModel::AddTodo(typed), EffectModel::DraftTodo(Seq::empty())]
    } else {
        seq![EffectModel::DraftTodo(typed)]
    }
}

/// The effects of one frame's interaction with the draft row.
///
/// `typed` is the text in the entry field at the end of the frame;
/// `submitted` says whether the field was confirmed or the add button
/// pressed.
pub fn draft_row_effects(typed: String, submitted: bool) -> (r: Vec<Effect>)
    ensures
        views_of(r@) == draft_row_intents(typed@, submitted),
{
    let mut r: Vec<Effect> = Vec::new();
    if submitted {
        r.push(Effect::AddTodo(typed));
        r.push(Effect::DraftTodo(String::new()));
    } else {
        r.push(Effect::DraftTodo(typed));
    }
    proof {
        assert(views_of(r@) =~= draft_row_intents(typed@, submitted));
    }
    r
}

/// The intents of one note's row.
///
/// In order: the checkbox toggle, the action button (which toggles edit mode,
/// and when the row was in edit mode also saves the edited label), the delete
/// button, and — only in edit mode — the label field, which saves on
/// confirmation (again toggling edit mode) and in any case commits the text
/// typed so far. A row not in edit mode never yields a label write.
pub open spec fn todo_row_intents(
    index: usize,
    edit_mode: bool,
    typed_label: Seq<char>,
    check_toggled: bool,
    action_clicked: bool,
    delete_clicked: bool,
    submitted: bool,
) -> Seq<EffectModel> {
    let check = if check_toggled {
        seq![EffectModel::CheckTodo(index)]
    } else {
        Seq::empty()
    };
    let action = if action_clicked {
        if edit_mode {
            seq![EffectModel::EditTodo(index), EffectModel::SaveTodo(index, typed_label)]
        } else {
            seq![EffectModel::EditTodo(index)]
        }
    } else {
        Seq::empty()
    };
    let del = if delete_clicked {
        seq![EffectModel::DeleteTodo(index)]
    } else {
        Seq::empty()
    };
    let text = if edit_mode {
        (if submitted {
            seq![EffectModel::EditTodo(index), EffectModel::SaveTodo(index, typed_label)]
        } else {
            Seq::empty()
        }) + seq![EffectModel::SaveTodo(index, typed_label)]
    } else {
        Seq::empty()
    };
    check + action + del + text
}

/// The effects of one frame's interaction with the note at `index`.
///
/// `edit_mode` is the mode the note was rendered in, `typed_label` the text
/// in its label field at the end of the frame (the shown label when the field
/// was not touched), `check_toggled` whether the checkbox changed,
/// `action_clicked` whether the edit-or-save button was pressed,
/// `delete_clicked` whether the delete button was pressed, and `submitted`
/// whether the label field was confirmed.
pub fn todo_row_effects(
    index: usize,
    edit_mode: bool,
    typed_label: String,
    check_toggled: bool,
    action_clicked: bool,
    delete_clicked: bool,
    submitted: bool,
) -> (r: Vec<Effect>)
    ensures
        views_of(r@) == todo_row_intents(
            index,
            edit_mode,
            typed_label@,
            check_toggled,
            action_clicked,
            delete_clicked,
            submitted,
        ),
{
    let mut r: Vec<Effect> = Vec::new();
    if check_toggled {
        r.push(Effect::CheckTodo(index));
    }
    if action_clicked {
        r.push(Effect::EditTodo(index));
        if edit_mode {
            r.push(Effect::SaveTodo(index, typed_label.clone()));
        }
    }
    if delete_clicked {
        r.push(Effect::DeleteTodo(index));
    }
    if edit_mode {
        if submitted {
            r.push(Effect::EditTodo(index));
            r.push(Effect::SaveTodo(index, typed_label.clone()));
        }
        r.push(Effect::SaveTodo(index, typed_label));
    }
    proof {
        assert(views_of(r@) =~= todo_row_intents(
            index,
            edit_mode,
            typed_label@,
            check_toggled,
            action_clicked,
            delete_clicked,
            submitted,
        ));
    }
    r
}

/// The measurement intent of a layout slot: a slot whose size was never
/// memoized asks for its freshly measured size to be stored; a memoized slot
/// asks for nothing.
pub fn measure_effect(already_measured: bool, slot: String, size_bits: u32) -> (r: Option<
    Effect,
>)
    ensures
        r == if already_measured {
            None::<Effect>
        } else {
            Some(Effect::InsertCalculated(slot, size_bits))
        },
{
    if already_measured {
        None
    } else {
        Some(Effect::InsertCalculated(slot, size_bits))
    }
}

} // verus!
