//! A single sticky note.

use vstd::prelude::*;

verus! {

/// Mathematical model of a note: the identifier, the label text, and the two
/// independent widget flags.
#[verifier::ext_equal]
pub struct TodoModel {
    pub id: u64,
    pub label: Seq<char>,
    pub checked: bool,
    pub edit_mode: bool,
}

/// A sticky note. The identifier is opaque to callers and stable across
/// renames; it is assigned from a monotonically increasing counter and never
/// reused while the program runs.
pub struct Todo {
    pub id: u64,
    pub label: String,
    pub checked: bool,
    pub edit_mode: bool,
}

impl View for Todo {
    type V = TodoModel;

    open spec fn view(&self) -> TodoModel {
        TodoModel {
            id: self.id,
            label: self.label@,
            checked: self.checked,
            edit_mode: self.edit_mode,
        }
    }
}

/// The models of a list of notes, in list order.
pub open spec fn todo_views(todos: Seq<Todo>) -> Seq<TodoModel> {
    todos.map_values(|t: Todo| t@)
}

impl Todo {
    /// A freshly added note: unchecked and not in edit mode.
    pub fn new(id: u64, label: String) -> (t: Todo)
        ensures
            t@ == (TodoModel { id, label: label@, checked: false, edit_mode: false }),
    {
        Todo { id, label, checked: false, edit_mode: false }
    }
}

} // verus!
