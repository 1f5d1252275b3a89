//! The compiled artifact: an immutable transition validator.
//!
//! A [`Validator`] is a pure function of the schema it was compiled from: a
//! boolean relation table, a finish table, and the precomputed finish-state
//! count, all keyed by state tag (the state's position in declaration
//! order).  The validator reads only a state value's tag; its payload never
//! influences any answer.

use crate::schema::{count_terminal, rel, shape_of, Shape, StateDecl};
use vstd::prelude::*;

verus! {

/// A runtime state value's associated data.  The validator never reads it;
/// it exists so that `change` has something real to overwrite.
#[derive(Clone, Debug)]
pub enum Payload {
    /// No associated data.
    NoData,
    /// Positional data.
    Positional(Vec<u64>),
    /// Named-field data.
    Named(Vec<(String, u64)>),
}

/// A caller-owned runtime state value: the tag of a declared state together
/// with that instance's payload.
#[derive(Clone, Debug)]
pub struct StateValue {
    /// The state's tag: its position in the schema's declaration order.
    pub tag: usize,
    /// This instance's associated data.
    pub payload: Payload,
}

/// The number of `true` entries in a boolean table.
pub open spec fn count_true(s: Seq<bool>) -> nat
    decreases s.len(),
{
    if s.len() == 0 {
        0
    } else {
        count_true(s.drop_last()) + if s.last() {
            1nat
        } else {
            0nat
        }
    }
}

/// The compiled transition validator.  Immutable once built: every answer is
/// a table lookup.
pub struct Validator {
    /// The declared state names, by tag.
    pub(crate) names: Vec<String>,
    /// Each state's associated-data shape, by tag.
    pub(crate) shapes: Vec<Shape>,
    /// `relation[s][t]` holds exactly when state `s` may change into state
    /// `t`.
    pub(crate) relation: Vec<Vec<bool>>,
    /// `finish[s]` holds exactly when state `s` is a finish state.
    pub(crate) finish: Vec<bool>,
    /// The number of finish states, computed once at compile time.
    pub(crate) finish_count: usize,
}

impl Validator {
    /// The number of states in the compiled schema.
    pub closed spec fn spec_state_count(self) -> int {
        self.names@.len() as int
    }

    /// The tables are square, mutually consistent, and the embedded count
    /// agrees with the finish table.
    pub closed spec fn wf(self) -> bool {
        &&& self.shapes@.len() == self.names@.len()
        &&& self.relation@.len() == self.names@.len()
        &&& (forall|i: int|
            0 <= i < self.relation@.len() ==> self.relation@[i]@.len() == self.names@.len())
        &&& self.finish@.len() == self.names@.len()
        &&& self.finish_count as nat == count_true(self.finish@)
    }

    /// Whether the compiled relation lets state `i` change into state `j`.
    pub closed spec fn spec_rel(self, i: int, j: int) -> bool {
        self.relation@[i]@[j]
    }

    /// Whether the compiled finish table marks state `i` terminal.
    pub closed spec fn spec_finish(self, i: int) -> bool {
        self.finish@[i]
    }

    /// The embedded finish-state count.
    pub closed spec fn spec_finish_count(self) -> nat {
        self.finish_count as nat
    }

    /// The declared name of state `i`.
    pub closed spec fn spec_name(self, i: int) -> Seq<char> {
        self.names@[i]@
    }

    /// The associated-data shape of state `i`.
    pub closed spec fn spec_shape(self, i: int) -> Shape {
        self.shapes@[i]
    }

    /// The validator is a faithful compilation of the given declarations:
    /// one state per declaration in order, with its name and shape; the
    /// relation table equals the declared transition relation; the finish
    /// table marks exactly the states with no annotation; and the embedded
    /// count is the number of such states.
    pub open spec fn validates(self, ds: Seq<StateDecl>) -> bool {
        &&& self.wf()
        &&& self.spec_state_count() == ds.len()
        &&& (forall|i: int| 0 <= i < ds.len() ==> self.spec_name(i) == ds[i].name@)
        &&& (forall|i: int| 0 <= i < ds.len() ==> self.spec_shape(i) == shape_of(ds[i].fields))
        &&& (forall|i: int, j: int|
            0 <= i < ds.len() && 0 <= j < ds.len() ==> self.spec_rel(i, j) == rel(ds, i, j))
        &&& (forall|i: int| 0 <= i < ds.len() ==> self.spec_finish(i) == ds[i].is_terminal())
        &&& self.spec_finish_count() == count_terminal(ds)
    }

    /// Builds a validator from its tables.  Only the compiler calls this;
    /// the tables are never mutated afterwards.
    pub(crate) fn new(
        names: Vec<String>,
        shapes: Vec<Shape>,
        relation: Vec<Vec<bool>>,
        finish: Vec<bool>,
        finish_count: usize,
    ) -> (v: Validator)
        requires
            shapes@.len() == names@.len(),
            relation@.len() == names@.len(),
            forall|i: int| 0 <= i < relation@.len() ==> relation@[i]@.len() == names@.len(),
            finish@.len() == names@.len(),
            finish_count as nat == count_true(finish@),
        ensures
            v.wf(),
            v.spec_state_count() == names@.len(),
            forall|i: int| 0 <= i < names@.len() ==> v.spec_name(i) == names@[i]@,
            forall|i: int| 0 <= i < names@.len() ==> v.spec_shape(i) == shapes@[i],
            forall|i: int, j: int|
                0 <= i < names@.len() && 0 <= j < names@.len() ==> v.spec_rel(i, j)
                    == relation@[i]@[j],
            forall|i: int| 0 <= i < names@.len() ==> v.spec_finish(i) == finish@[i],
            v.spec_finish_count() == finish_count as nat,
    {
        Validator { names, shapes, relation, finish, finish_count }
    }

    /// The number of states in the compiled schema.
    pub fn state_count(&self) -> (n: usize)
        ensures
            n == self.spec_state_count(),
    {
        self.names.len()
    }

    /// The associated-data shape of the state with the given tag.
    pub fn state_shape(&self, tag: usize) -> (s: Shape)
        requires
            self.wf(),
            0 <= tag < self.spec_state_count(),
        ensures
            s == self.spec_shape(tag as int),
    {
        self.shapes[tag]
    }

    /// Whether the current value may legally change into the proposed one.
    /// Pure: reads only the two tags, never a payload.
    pub fn can_change(&self, current: &StateValue, proposed: &StateValue) -> (r: bool)
        requires
            self.wf(),
            current.tag < self.spec_state_count(),
            proposed.tag < self.spec_state_count(),
        ensures
            r == self.spec_rel(current.tag as int, proposed.tag as int),
    {
        self.relation[current.tag][proposed.tag]
    }

    /// Overwrites `current` with `proposed` and returns `true` when the
    /// transition is legal; otherwise leaves `current` untouched and returns
    /// `false`.  The check and the overwrite happen as one step: there is no
    /// partial mutation, and no error channel.
    pub fn change(&self, current: &mut StateValue, proposed: StateValue) -> (r: bool)
        requires
            self.wf(),
            old(current).tag < self.spec_state_count(),
            proposed.tag < self.spec_state_count(),
        ensures
            r == self.spec_rel(old(current).tag as int, proposed.tag as int),
            r ==> *final(current) == proposed,
            !r ==> *final(current) == *old(current),
    {
        if self.relation[current.tag][proposed.tag] {
            *current = proposed;
            true
        } else {
            false
        }
    }

    /// Whether the proposed value's state is a finish (terminal) state.  A
    /// stateless query: it depends on the schema alone, not on any current
    /// value.
    pub fn is_finish_state(&self, proposed: &StateValue) -> (r: bool)
        requires
            self.wf(),
            proposed.tag < self.spec_state_count(),
        ensures
            r == self.spec_finish(proposed.tag as int),
    {
        self.finish[proposed.tag]
    }

    /// Whether the current value sits at a finish state.  Convenience equal
    /// to [`Validator::is_finish_state`] on the same value.
    pub fn at_finish_state(&self, current: &StateValue) -> (r: bool)
        requires
            self.wf(),
            current.tag < self.spec_state_count(),
        ensures
            r == self.spec_finish(current.tag as int),
    {
        self.finish[current.tag]
    }

    /// The number of finish states, embedded as a constant at compile time.
    pub fn finish_states(&self) -> (n: usize)
        ensures
            n as nat == self.spec_finish_count(),
    {
        self.finish_count
    }
}

} // verus!
