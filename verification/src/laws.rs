//! Laws of the store: what holds of every state, not just of one scenario.

use vstd::prelude::*;

use crate::effect::EffectModel;
use crate::intents::todo_row_intents;
use crate::note::TodoModel;
use crate::state::{apply_all, step, StoreModel};

verus! {

/// Note identifiers are pairwise distinct, and all below the counter that
/// hands out the next one.
pub open spec fn ids_wf(s: StoreModel) -> bool {
    &&& forall|i: int| 0 <= i < s.todos.len() ==> (#[trigger] s.todos[i].id) < s.next_id
    &&& forall|i: int, j: int|
        0 <= i < j < s.todos.len() ==> s.todos[i].id != s.todos[j].id
}

/// Identifier well-formedness is an invariant: every effect preserves it.
pub proof fn lemma_step_preserves_ids_wf(s: StoreModel, e: EffectModel)
    requires
        ids_wf(s),
    ensures
        ids_wf(step(s, e)),
{
}

/// So does a whole queue of effects.
pub proof fn lemma_apply_all_preserves_ids_wf(s: StoreModel, es: Seq<EffectModel>)
    requires
        ids_wf(s),
    ensures
        ids_wf(apply_all(s, es)),
    decreases es.len(),
{
    if es.len() > 0 {
        lemma_step_preserves_ids_wf(s, es[0]);
        lemma_apply_all_preserves_ids_wf(step(s, es[0]), es.drop_first());
    }
}

/// Applying a queue piece by piece is applying it whole.
pub proof fn lemma_apply_all_app(s: StoreModel, a: Seq<EffectModel>, b: Seq<EffectModel>)
    ensures
        apply_all(s, a + b) == apply_all(apply_all(s, a), b),
    decreases a.len(),
{
    if a.len() == 0 {
        assert(a + b =~= b);
    } else {
        assert((a + b)[0] == a[0]);
        assert((a + b).drop_first() =~= a.drop_first() + b);
        lemma_apply_all_app(step(s, a[0]), a.drop_first(), b);
    }
}

/// A queue of one effect is one step.
pub proof fn lemma_apply_all_one(s: StoreModel, e: EffectModel)
    ensures
        apply_all(s, seq![e]) == step(s, e),
{
    let es = seq![e];
    assert(es.len() == 1 && es[0] == e);
    assert(es.drop_first().len() == 0);
    assert(apply_all(step(s, e), es.drop_first()) == step(s, e));
}

/// Adding a note with a non-empty label appends exactly one note — with a
/// fresh identifier, unchecked and not in edit mode — leaves the earlier
/// notes as they were, and clears the draft.
pub proof fn lemma_add_nonempty(s: StoreModel, label: Seq<char>)
    requires
        label.len() > 0,
        s.next_id < u64::MAX,
    ensures
        ({
            let t = step(s, EffectModel::AddTodo(label));
            &&& t.todos.len() == s.todos.len() + 1
            &&& t.todos.drop_last() == s.todos
            &&& t.todos.last() == (TodoModel {
                id: s.next_id,
                label,
                checked: false,
                edit_mode: false,
            })
            &&& t.draft == Seq::<char>::empty()
            &&& t.next_id == s.next_id + 1
            &&& t.calculated == s.calculated
        }),
{
    let t = step(s, EffectModel::AddTodo(label));
    assert(t.todos.drop_last() =~= s.todos);
}

/// Adding with an empty label changes nothing at all.
pub proof fn lemma_add_empty_noop(s: StoreModel)
    ensures
        step(s, EffectModel::AddTodo(Seq::empty())) == s,
{
}

/// Deleting a note removes exactly that note: the list is one shorter, the
/// earlier notes keep their places, the later ones each move up by one, no
/// surviving note carries the deleted identifier, and nothing else of the
/// store changes.
pub proof fn lemma_delete_exact(s: StoreModel, index: usize)
    requires
        ids_wf(s),
        index < s.todos.len(),
    ensures
        ({
            let t = step(s, EffectModel::DeleteTodo(index));
            &&& t.todos.len() == s.todos.len() - 1
            &&& forall|j: int| 0 <= j < index ==> t.todos[j] == s.todos[j]
            &&& forall|j: int| index <= j < t.todos.len() ==> t.todos[j] == s.todos[j + 1]
            &&& forall|j: int|
                0 <= j < t.todos.len() ==> (#[trigger] t.todos[j].id) != s.todos[index as int].id
            &&& t.draft == s.draft
            &&& t.calculated == s.calculated
            &&& t.next_id == s.next_id
        }),
{
}

/// Deleting by a position no note occupies changes nothing.
pub proof fn lemma_delete_missing_noop(s: StoreModel, index: usize)
    requires
        index >= s.todos.len(),
    ensures
        step(s, EffectModel::DeleteTodo(index)) == s,
{
}

/// Toggling a note's checked flag twice returns the store to where it was.
/// A position no note occupies makes both toggles no-ops.
pub proof fn lemma_toggle_checked_twice(s: StoreModel, index: usize)
    ensures
        step(step(s, EffectModel::CheckTodo(index)), EffectModel::CheckTodo(index)) == s,
{
    if index < s.todos.len() {
        let t = step(step(s, EffectModel::CheckTodo(index)), EffectModel::CheckTodo(index));
        assert(t.todos[index as int] =~= s.todos[index as int]);
        assert(t.todos =~= s.todos);
        assert(t =~= s);
    }
}

/// Toggling a note's edit mode twice returns the store to where it was.
pub proof fn lemma_toggle_edit_twice(s: StoreModel, index: usize)
    ensures
        step(step(s, EffectModel::EditTodo(index)), EffectModel::EditTodo(index)) == s,
{
    if index < s.todos.len() {
        let t = step(step(s, EffectModel::EditTodo(index)), EffectModel::EditTodo(index));
        assert(t.todos[index as int] =~= s.todos[index as int]);
        assert(t.todos =~= s.todos);
        assert(t =~= s);
    }
}

/// The labels of the notes, in list order.
pub open spec fn labels_of(todos: Seq<TodoModel>) -> Seq<Seq<char>> {
    todos.map_values(|t: TodoModel| t.label)
}

/// Toggling checked or edit mode never touches a label.
proof fn lemma_toggles_keep_labels(s: StoreModel, e: EffectModel)
    requires
        e is CheckTodo || e is EditTodo,
    ensures
        labels_of(step(s, e).todos) == labels_of(s.todos),
        step(s, e).draft == s.draft,
{
    assert(labels_of(step(s, e).todos) =~= labels_of(s.todos));
}

/// Text typed into the label field of a note that is not in edit mode is
/// invisible: the row yields no label write at all, its intents do not
/// depend on the typed text, and after its effects are applied every
/// surviving note keeps the label it had (the delete button alone removes
/// one), while the draft is untouched.
pub proof fn lemma_non_edit_typing_invisible(
    s: StoreModel,
    index: usize,
    typed: Seq<char>,
    check_toggled: bool,
    action_clicked: bool,
    delete_clicked: bool,
    submitted: bool,
)
    ensures
        ({
            let es = todo_row_intents(
                index,
                false,
                typed,
                check_toggled,
                action_clicked,
                delete_clicked,
                submitted,
            );
            let t = apply_all(s, es);
            &&& es == todo_row_intents(
                index,
                false,
                Seq::<char>::empty(),
                check_toggled,
                action_clicked,
                delete_clicked,
                submitted,
            )
            &&& forall|k: int| 0 <= k < es.len() ==> !((#[trigger] es[k]) is SaveTodo)
            &&& t.draft == s.draft
            &&& labels_of(t.todos) == if delete_clicked && index < s.todos.len() {
                labels_of(s.todos).remove(index as int)
            } else {
                labels_of(s.todos)
            }
        }),
{
    let check = if check_toggled {
        seq![EffectModel::CheckTodo(index)]
    } else {
        Seq::<EffectModel>::empty()
    };
    let action = if action_clicked {
        seq![EffectModel::EditTodo(index)]
    } else {
        Seq::<EffectModel>::empty()
    };
    let del = if delete_clicked {
        seq![EffectModel::DeleteTodo(index)]
    } else {
        Seq::<EffectModel>::empty()
    };
    let es = todo_row_intents(
        index,
        false,
        typed,
        check_toggled,
        action_clicked,
        delete_clicked,
        submitted,
    );
    assert(es == check + action + del);
    lemma_apply_all_app(s, check, action);
    lemma_apply_all_app(s, check + action, del);
    assert((check + action) + del =~= check + action + del);
    let s1 = apply_all(s, check);
    let s2 = apply_all(s1, action);
    let t = apply_all(s2, del);
    if check_toggled {
        lemma_apply_all_one(s, EffectModel::CheckTodo(index));
        lemma_toggles_keep_labels(s, EffectModel::CheckTodo(index));
    } else {
        assert(apply_all(s, check) == s);
    }
    assert(labels_of(s1.todos) == labels_of(s.todos) && s1.draft == s.draft);
    if action_clicked {
        lemma_apply_all_one(s1, EffectModel::EditTodo(index));
        lemma_toggles_keep_labels(s1, EffectModel::EditTodo(index));
    } else {
        assert(apply_all(s1, action) == s1);
    }
    assert(labels_of(s2.todos) == labels_of(s.todos) && s2.draft == s.draft);
    if delete_clicked {
        lemma_apply_all_one(s2, EffectModel::DeleteTodo(index));
        if index < s2.todos.len() {
            assert(labels_of(t.todos) =~= labels_of(s2.todos).remove(index as int));
        }
    } else {
        assert(apply_all(s2, del) == s2);
    }
    assert(s2.todos.len() == s.todos.len()) by {
        assert(labels_of(s2.todos).len() == labels_of(s.todos).len());
    }
}

} // verus!
