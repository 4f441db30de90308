use stickies::effect::Effect;
use stickies::intents::{draft_row_effects, measure_effect, todo_row_effects};
use stickies::state::AppState;

fn with_note(label: &str) -> AppState {
    let mut state = AppState::default();
    state.enqueue(Effect::AddTodo(label.to_string()));
    state.apply_effects();
    state
}

#[test]
fn draft_submit_creates_note() {
    let mut state = AppState::default();
    let effects = draft_row_effects("New sticky".to_string(), true);
    state.enqueue_all(effects);
    state.apply_effects();
    assert_eq!(state.todo_count(), 1);
    assert_eq!(state.todos()[0].label, "New sticky");
    assert_eq!(state.draft(), "");
}

#[test]
fn draft_typing_commits_draft_only() {
    let mut state = AppState::default();
    let effects = draft_row_effects("half a tho".to_string(), false);
    state.enqueue_all(effects);
    state.apply_effects();
    assert_eq!(state.todo_count(), 0);
    assert_eq!(state.draft(), "half a tho");
}

#[test]
fn typing_without_edit_mode_not_observable() {
    let mut state = with_note("A");
    // The row is not in edit mode: whatever sits in the field, even with the
    // field confirmed, must not touch the committed label.
    let effects = todo_row_effects(0, false, "garbage typing".to_string(), false, false, false, true);
    state.enqueue_all(effects);
    state.apply_effects();
    assert_eq!(state.todo_count(), 1);
    assert_eq!(state.todos()[0].label, "A");
    assert!(!state.todos()[0].edit_mode);
}

#[test]
fn edit_then_save_commits_label() {
    let mut state = with_note("A");
    // One frame: the edit button is clicked on a row not in edit mode.
    let effects = todo_row_effects(0, false, "A".to_string(), false, true, false, false);
    state.enqueue_all(effects);
    state.apply_effects();
    assert!(state.todos()[0].edit_mode);
    assert_eq!(state.todos()[0].label, "A");
    // Next frame: the row is in edit mode, "B" was typed, save clicked.
    let effects = todo_row_effects(0, true, "B".to_string(), false, true, false, false);
    state.enqueue_all(effects);
    state.apply_effects();
    assert!(!state.todos()[0].edit_mode);
    assert_eq!(state.todos()[0].label, "B");
}

#[test]
fn typing_in_edit_mode_commits_without_leaving_it() {
    let mut state = with_note("A");
    state.enqueue(Effect::EditTodo(0));
    state.apply_effects();
    // Typing without confirming: the text is committed, edit mode stays on.
    let effects = todo_row_effects(0, true, "Ab".to_string(), false, false, false, false);
    state.enqueue_all(effects);
    state.apply_effects();
    assert!(state.todos()[0].edit_mode);
    assert_eq!(state.todos()[0].label, "Ab");
}

#[test]
fn checkbox_toggles_via_row() {
    let mut state = with_note("A");
    let effects = todo_row_effects(0, false, "A".to_string(), true, false, false, false);
    state.enqueue_all(effects);
    state.apply_effects();
    assert!(state.todos()[0].checked);
}

#[test]
fn delete_via_row_removes_note() {
    let mut state = with_note("A");
    let effects = todo_row_effects(0, false, "A".to_string(), false, false, true, false);
    state.enqueue_all(effects);
    state.apply_effects();
    assert_eq!(state.todo_count(), 0);
}

#[test]
fn measure_only_when_not_memoized() {
    let mut state = AppState::default();
    let slot = "todo_actions".to_string();
    let already = state.measurement(&slot).is_some();
    let effect = measure_effect(already, slot.clone(), 321);
    assert!(effect.is_some());
    if let Some(e) = effect {
        state.enqueue(e);
    }
    state.apply_effects();
    assert_eq!(state.measurement(&slot), Some(321));
    let already = state.measurement(&slot).is_some();
    assert!(measure_effect(already, slot.clone(), 555).is_none());
    assert_eq!(state.measurement(&slot), Some(321));
}
