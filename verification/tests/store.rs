use stickies::effect::Effect;
use stickies::note::Todo;
use stickies::state::AppState;

fn apply(state: &mut AppState, effect: Effect) {
    state.enqueue(effect);
    state.apply_effects();
}

#[test]
fn default_state() {
    let state = AppState::default();
    assert_eq!(state.draft(), "Feed doge");
    assert_eq!(state.todo_count(), 0);
    assert_eq!(state.next_id(), 0);
    assert_eq!(state.pending_count(), 0);
}

#[test]
fn add_nonempty_appends_and_clears_draft() {
    let mut state = AppState::default();
    apply(&mut state, Effect::AddTodo("Water plants".to_string()));
    assert_eq!(state.todo_count(), 1);
    assert_eq!(state.draft(), "");
    let todo = &state.todos()[0];
    assert_eq!(todo.label, "Water plants");
    assert_eq!(todo.id, 0);
    assert!(!todo.checked);
    assert!(!todo.edit_mode);
}

#[test]
fn add_empty_is_noop() {
    let mut state = AppState::default();
    apply(&mut state, Effect::AddTodo(String::new()));
    assert_eq!(state.todo_count(), 0);
    assert_eq!(state.draft(), "Feed doge");
    assert_eq!(state.next_id(), 0);
}

#[test]
fn add_assigns_fresh_ids_in_order() {
    let mut state = AppState::default();
    apply(&mut state, Effect::AddTodo("A".to_string()));
    apply(&mut state, Effect::AddTodo("B".to_string()));
    assert_eq!(state.todos()[0].id, 0);
    assert_eq!(state.todos()[1].id, 1);
    assert_eq!(state.next_id(), 2);
}

#[test]
fn ids_not_reused_after_delete() {
    let mut state = AppState::default();
    apply(&mut state, Effect::AddTodo("A".to_string()));
    apply(&mut state, Effect::AddTodo("B".to_string()));
    apply(&mut state, Effect::DeleteTodo(0));
    apply(&mut state, Effect::AddTodo("C".to_string()));
    assert_eq!(state.todos()[0].id, 1);
    assert_eq!(state.todos()[1].id, 2);
}

#[test]
fn delete_middle_keeps_order() {
    let mut state = AppState::default();
    apply(&mut state, Effect::AddTodo("A".to_string()));
    apply(&mut state, Effect::AddTodo("B".to_string()));
    apply(&mut state, Effect::AddTodo("C".to_string()));
    apply(&mut state, Effect::DeleteTodo(1));
    assert_eq!(state.todo_count(), 2);
    assert_eq!(state.todos()[0].label, "A");
    assert_eq!(state.todos()[1].label, "C");
    assert_eq!(state.todos()[0].id, 0);
    assert_eq!(state.todos()[1].id, 2);
}

#[test]
fn delete_out_of_range_is_noop() {
    let mut state = AppState::default();
    apply(&mut state, Effect::AddTodo("A".to_string()));
    apply(&mut state, Effect::DeleteTodo(7));
    assert_eq!(state.todo_count(), 1);
    assert_eq!(state.todos()[0].label, "A");
}

#[test]
fn toggle_checked_twice_roundtrip() {
    let mut state = AppState::default();
    apply(&mut state, Effect::AddTodo("A".to_string()));
    apply(&mut state, Effect::CheckTodo(0));
    assert!(state.todos()[0].checked);
    apply(&mut state, Effect::CheckTodo(0));
    assert!(!state.todos()[0].checked);
}

#[test]
fn toggle_edit_twice_roundtrip() {
    let mut state = AppState::default();
    apply(&mut state, Effect::AddTodo("A".to_string()));
    apply(&mut state, Effect::EditTodo(0));
    assert!(state.todos()[0].edit_mode);
    apply(&mut state, Effect::EditTodo(0));
    assert!(!state.todos()[0].edit_mode);
}

#[test]
fn toggle_missing_index_is_noop() {
    let mut state = AppState::default();
    apply(&mut state, Effect::EditTodo(5));
    apply(&mut state, Effect::CheckTodo(5));
    assert_eq!(state.todo_count(), 0);
    assert_eq!(state.draft(), "Feed doge");
}

#[test]
fn save_overwrites_label() {
    let mut state = AppState::default();
    apply(&mut state, Effect::AddTodo("A".to_string()));
    apply(&mut state, Effect::SaveTodo(0, "B".to_string()));
    assert_eq!(state.todos()[0].label, "B");
    assert_eq!(state.todos()[0].id, 0);
}

#[test]
fn save_missing_index_is_noop() {
    let mut state = AppState::default();
    apply(&mut state, Effect::SaveTodo(3, "B".to_string()));
    assert_eq!(state.todo_count(), 0);
}

#[test]
fn draft_effect_sets_draft() {
    let mut state = AppState::default();
    apply(&mut state, Effect::DraftTodo("halfway typed".to_string()));
    assert_eq!(state.draft(), "halfway typed");
    assert_eq!(state.todo_count(), 0);
}

#[test]
fn effects_apply_in_queue_order() {
    let mut state = AppState::default();
    state.enqueue(Effect::AddTodo("A".to_string()));
    state.enqueue(Effect::SaveTodo(0, "B".to_string()));
    state.enqueue(Effect::DraftTodo("x".to_string()));
    state.enqueue(Effect::DraftTodo("y".to_string()));
    assert_eq!(state.pending_count(), 4);
    assert_eq!(state.todo_count(), 0);
    state.apply_effects();
    assert_eq!(state.pending_count(), 0);
    assert_eq!(state.todos()[0].label, "B");
    assert_eq!(state.draft(), "y");
}

#[test]
fn measurement_cache_upserts() {
    let mut state = AppState::default();
    let slot = "draft_todo".to_string();
    assert_eq!(state.measurement(&slot), None);
    apply(&mut state, Effect::InsertCalculated(slot.clone(), 17));
    assert_eq!(state.measurement(&slot), Some(17));
    apply(&mut state, Effect::InsertCalculated(slot.clone(), 99));
    assert_eq!(state.measurement(&slot), Some(99));
    apply(&mut state, Effect::InsertCalculated("todo_text".to_string(), 4));
    assert_eq!(state.measurements().len(), 2);
    assert_eq!(state.measurement(&"todo_text".to_string()), Some(4));
    assert_eq!(state.measurement(&"todo_actions".to_string()), None);
}

#[test]
fn from_parts_restores_store() {
    let todos = vec![Todo::new(4, "A".to_string()), Todo::new(6, "B".to_string())];
    let state = AppState::from_parts("kept draft".to_string(), todos, 7);
    assert_eq!(state.draft(), "kept draft");
    assert_eq!(state.todo_count(), 2);
    assert_eq!(state.todos()[1].id, 6);
    assert_eq!(state.next_id(), 7);
    assert_eq!(state.pending_count(), 0);
}

#[test]
fn add_with_exhausted_counter_is_noop() {
    let mut state = AppState::from_parts("d".to_string(), Vec::new(), u64::MAX);
    apply(&mut state, Effect::AddTodo("A".to_string()));
    assert_eq!(state.todo_count(), 0);
    assert_eq!(state.draft(), "d");
}
