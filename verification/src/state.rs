//! The state store and the effect queue.
//!
//! [`AppState`] owns the committed state: the draft text, the notes in
//! insertion order, the measurement cache, and the counter that hands out
//! fresh note identifiers. Interactions enqueue [`Effect`]s; once per frame
//! [`AppState::apply_effects`] drains the queue in order and applies each
//! effect to the store. Every effect is total: one that names a position out
//! of range leaves the store unchanged.

use vstd::prelude::*;

use crate::cache::{Measurement, MeasurementCache};
use crate::effect::{views_of, Effect, EffectModel};
use crate::note::{todo_views, Todo, TodoModel};

verus! {

/// Mathematical model of the committed state.
#[verifier::ext_equal]
pub struct StoreModel {
    /// The pending text for a not-yet-created note.
    pub draft: Seq<char>,
    /// The notes, in insertion order.
    pub todos: Seq<TodoModel>,
    /// Memoized layout sizes by slot name.
    pub calculated: Map<Seq<char>, u32>,
    /// The next identifier to hand out; never decreased, so identifiers are
    /// not reused while the program runs.
    pub next_id: u64,
}

/// What one effect does to the committed state.
///
/// Adding with an empty label is a no-op: the store only creates notes with
/// visible text. Adding is also a no-op in the unreachable corner where the
/// identifier counter is exhausted, so that a fresh identifier can always be
/// handed out.
pub open spec fn step(s: StoreModel, e: EffectModel) -> StoreModel {
    match e {
        EffectModel::DraftTodo(text) => StoreModel { draft: text, ..s },
        EffectModel::AddTodo(label) => {
            if label.len() == 0 || s.next_id == u64::MAX {
                s
            } else {
                StoreModel {
                    draft: Seq::empty(),
                    todos: s.todos.push(
                        TodoModel { id: s.next_id, label, checked: false, edit_mode: false },
                    ),
                    next_id: (s.next_id + 1) as u64,
                    ..s
                }
            }
        },
        EffectModel::EditTodo(i) => {
            if i < s.todos.len() {
                StoreModel {
                    todos: s.todos.update(
                        i as int,
                        TodoModel { edit_mode: !s.todos[i as int].edit_mode, ..s.todos[i as int] },
                    ),
                    ..s
                }
            } else {
                s
            }
        },
        EffectModel::SaveTodo(i, label) => {
            if i < s.todos.len() {
                StoreModel {
                    todos: s.todos.update(i as int, TodoModel { label, ..s.todos[i as int] }),
                    ..s
                }
            } else {
                s
            }
        },
        EffectModel::CheckTodo(i) => {
            if i < s.todos.len() {
                StoreModel {
                    todos: s.todos.update(
                        i as int,
                        TodoModel { checked: !s.todos[i as int].checked, ..s.todos[i as int] },
                    ),
                    ..s
                }
            } else {
                s
            }
        },
        EffectModel::DeleteTodo(i) => {
            if i < s.todos.len() {
                StoreModel { todos: s.todos.remove(i as int), ..s }
            } else {
                s
            }
        },
        EffectModel::InsertCalculated(slot, bits) => {
            StoreModel { calculated: s.calculated.insert(slot, bits), ..s }
        },
    }
}

/// A whole queue of effects applied in order.
pub open spec fn apply_all(s: StoreModel, es: Seq<EffectModel>) -> StoreModel
    decreases es.len(),
{
    if es.len() == 0 {
        s
    } else {
        apply_all(step(s, es[0]), es.drop_first())
    }
}

/// The state store together with its pending effect queue.
pub struct AppState {
    draft: String,
    todos: Vec<Todo>,
    calculated: MeasurementCache,
    effects: Vec<Effect>,
    next_id: u64,
}

impl AppState {
    /// The committed state, as a mathematical value.
    pub closed spec fn store(self) -> StoreModel {
        StoreModel {
            draft: self.draft@,
            todos: todo_views(self.todos@),
            calculated: self.calculated@,
            next_id: self.next_id,
        }
    }

    /// The pending effects, in enqueue order.
    pub closed spec fn queue(self) -> Seq<EffectModel> {
        views_of(self.effects@)
    }

    /// The measurement cache keeps one entry per slot name.
    pub closed spec fn wf(self) -> bool {
        self.calculated.wf()
    }

    /// Queue one effect; the committed state is untouched until the queue is
    /// drained.
    pub fn enqueue(&mut self, e: Effect)
        ensures
            final(self).wf() == old(self).wf(),
            final(self).store() == old(self).store(),
            final(self).queue() == old(self).queue().push(e@),
    {
        let ghost q0 = self.effects@;
        self.effects.push(e);
        proof {
            assert(views_of(q0.push(e)) =~= views_of(q0).push(e@));
        }
    }

    /// Queue a batch of effects in order.
    pub fn enqueue_all(&mut self, effects: Vec<Effect>)
        ensures
            final(self).wf() == old(self).wf(),
            final(self).store() == old(self).store(),
            final(self).queue() == old(self).queue() + views_of(effects@),
    {
        let ghost q0 = self.effects@;
        let ghost added = effects@;
        let mut effects = effects;
        self.effects.append(&mut effects);
        proof {
            assert(views_of(q0 + added) =~= views_of(q0) + views_of(added));
        }
    }

    /// Apply one effect to the committed state, leaving the queue alone.
    pub fn apply_effect(&mut self, e: Effect)
        requires
            old(self).wf(),
        ensures
            final(self).wf(),
            final(self).store() == step(old(self).store(), e@),
            final(self).queue() == old(self).queue(),
    {
        match e {
            Effect::DraftTodo(text) => {
                self.draft = text;
                assert(self.store() =~= step(old(self).store(), e@));
            },
            Effect::AddTodo(label) => {
                if !label.as_str().is_empty() && self.next_id < u64::MAX {
                    let ghost t0 = self.todos@;
                    let id = self.next_id;
                    self.next_id = id + 1;
                    let note = Todo::new(id, label);
                    self.todos.push(note);
                    self.draft = String::new();
                    proof {
                        assert(todo_views(t0.push(note)) =~= todo_views(t0).push(note@));
                        assert(self.store() =~= step(old(self).store(), e@));
                    }
                } else {
                    assert(self.store() =~= step(old(self).store(), e@));
                }
            },
            Effect::EditTodo(index) => {
                if index < self.todos.len() {
                    let ghost t0 = self.todos@;
                    let flipped = !self.todos[index].edit_mode;
                    self.todos[index].edit_mode = flipped;
                    proof {
                        assert(todo_views(self.todos@) =~= todo_views(t0).update(
                            index as int,
                            self.todos@[index as int]@,
                        ));
                        assert(self.store() =~= step(old(self).store(), e@));
                    }
                } else {
                    assert(self.store() =~= step(old(self).store(), e@));
                }
            },
            Effect::SaveTodo(index, label) => {
                if index < self.todos.len() {
                    let ghost t0 = self.todos@;
                    self.todos[index].label = label;
                    proof {
                        assert(todo_views(self.todos@) =~= todo_views(t0).update(
                            index as int,
                            self.todos@[index as int]@,
                        ));
                        assert(self.store() =~= step(old(self).store(), e@));
                    }
                } else {
                    assert(self.store() =~= step(old(self).store(), e@));
                }
            },
            Effect::CheckTodo(index) => {
                if index < self.todos.len() {
                    let ghost t0 = self.todos@;
                    let flipped = !self.todos[index].checked;
                    self.todos[index].checked = flipped;
                    proof {
                        assert(todo_views(self.todos@) =~= todo_views(t0).update(
                            index as int,
                            self.todos@[index as int]@,
                        ));
                        assert(self.store() =~= step(old(self).store(), e@));
                    }
                } else {
                    assert(self.store() =~= step(old(self).store(), e@));
                }
            },
            Effect::DeleteTodo(index) => {
                if index < self.todos.len() {
                    let ghost t0 = self.todos@;
                    self.todos.remove(index);
                    proof {
                        assert(todo_views(t0.remove(index as int)) =~= todo_views(t0).remove(
                            index as int,
                        ));
                        assert(self.store() =~= step(old(self).store(), e@));
                    }
                } else {
                    assert(self.store() =~= step(old(self).store(), e@));
                }
            },
            Effect::InsertCalculated(slot, bits) => {
                self.calculated.insert(slot, bits);
                assert(self.store() =~= step(old(self).store(), e@));
            },
        }
    }

    /// Drain the queue, applying every pending effect to the committed state
    /// in enqueue order.
    pub fn apply_effects(&mut self)
        requires
            old(self).wf(),
        ensures
            final(self).wf(),
            final(self).store() == apply_all(old(self).store(), old(self).queue()),
            final(self).queue() == Seq::<EffectModel>::empty(),
    {
        while self.effects.len() > 0
            invariant
                self.wf(),
                apply_all(self.store(), self.queue()) == apply_all(
                    old(self).store(),
                    old(self).queue(),
                ),
            decreases self.effects.len(),
        {
            let ghost q = self.queue();
            let e = self.effects.remove(0);
            proof {
                assert(self.queue() =~= q.drop_first());
                assert(e@ == q[0]);
            }
            self.apply_effect(e);
        }
        proof {
            assert(self.queue() =~= Seq::<EffectModel>::empty());
        }
    }

    /// A store rebuilt from persisted values: the given draft and notes, an
    /// empty measurement cache, an empty queue, and the counter to continue
    /// handing identifiers from.
    pub fn from_parts(draft: String, todos: Vec<Todo>, next_id: u64) -> (s: AppState)
        ensures
            s.wf(),
            s.store() == (StoreModel {
                draft: draft@,
                todos: todo_views(todos@),
                calculated: Map::<Seq<char>, u32>::empty(),
                next_id,
            }),
            s.queue() == Seq::<EffectModel>::empty(),
    {
        let s = AppState {
            draft,
            todos,
            calculated: MeasurementCache::new(),
            effects: Vec::new(),
            next_id,
        };
        proof {
            assert(views_of(s.effects@) =~= Seq::<EffectModel>::empty());
        }
        s
    }

    /// The committed draft text.
    pub fn draft(&self) -> (r: &String)
        ensures
            r@ == self.store().draft,
    {
        &self.draft
    }

    /// The committed notes, in insertion order.
    pub fn todos(&self) -> (r: &Vec<Todo>)
        ensures
            todo_views(r@) == self.store().todos,
    {
        &self.todos
    }

    /// How many notes the store holds.
    pub fn todo_count(&self) -> (n: usize)
        ensures
            n == self.store().todos.len(),
    {
        self.todos.len()
    }

    /// The identifier the next added note would get.
    pub fn next_id(&self) -> (r: u64)
        ensures
            r == self.store().next_id,
    {
        self.next_id
    }

    /// How many effects wait in the queue.
    pub fn pending_count(&self) -> (n: usize)
        ensures
            n == self.queue().len(),
    {
        self.effects.len()
    }

    /// The memoized size for a layout slot, if one was ever stored.
    pub fn measurement(&self, slot: &String) -> (r: Option<u32>)
        requires
            self.wf(),
        ensures
            r == if self.store().calculated.contains_key(slot@) {
                Some(self.store().calculated[slot@])
            } else {
                None::<u32>
            },
    {
        self.calculated.get(slot)
    }

    /// The memoized measurements, one per slot name.
    pub fn measurements(&self) -> (r: &Vec<Measurement>)
        requires
            self.wf(),
        ensures
            r@.len() == self.store().calculated.dom().len(),
            forall|i: int|
                0 <= i < r@.len() ==> self.store().calculated.contains_key(
                    #[trigger] r@[i].slot@,
                ) && self.store().calculated[r@[i].slot@] == r@[i].value,
    {
        self.calculated.entries()
    }
}

impl Default for AppState {
    /// The state shown on a first run: a sample draft, no notes, nothing
    /// measured, nothing pending.
    fn default() -> (s: AppState)
        ensures
            s.wf(),
            s.store() == (StoreModel {
                draft: "Feed doge"@,
                todos: Seq::<TodoModel>::empty(),
                calculated: Map::<Seq<char>, u32>::empty(),
                next_id: 0,
            }),
            s.queue() == Seq::<EffectModel>::empty(),
    {
        let s = AppState {
            draft: "Feed doge".to_owned(),
            todos: Vec::new(),
            calculated: MeasurementCache::new(),
            effects: Vec::new(),
            next_id: 0,
        };
        proof {
            assert(todo_views(s.todos@) =~= Seq::<TodoModel>::empty());
            assert(views_of(s.effects@) =~= Seq::<EffectModel>::empty());
        }
        s
    }
}

} // verus!
