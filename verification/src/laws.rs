//! The laws a compiled validator obeys, stated against the schema it was
//! compiled from.
//!
//! Each law is a public proof function: its `requires` assume only that the
//! validator is a faithful compilation of the declarations — which
//! [`crate::compiler::compile`] ensures of every validator it returns — and
//! its `ensures` restate one guarantee of the system in terms of the
//! declarations alone.

use crate::schema::{count_terminal, StateDecl};
use crate::validator::Validator;
use vstd::prelude::*;

verus! {

/// Totality: every state of the schema has a defined answer against every
/// state, itself included, and a state with no transition annotation can
/// change into nothing — the catch-all default is `false`, never an error.
pub proof fn lemma_totality(v: Validator, ds: Seq<StateDecl>, i: int, j: int)
    requires
        v.validates(ds),
        0 <= i < ds.len(),
        0 <= j < ds.len(),
    ensures
        v.spec_rel(i, j) == (!ds[i].is_terminal() && ds[i].targets().contains(ds[j].name@)),
        ds[i].is_terminal() ==> !v.spec_rel(i, j),
{
}

/// Terminal correctness: the validator reports a state as a finish state
/// exactly when its declaration carries no transition annotation.
pub proof fn lemma_terminal_correctness(v: Validator, ds: Seq<StateDecl>, i: int)
    requires
        v.validates(ds),
        0 <= i < ds.len(),
    ensures
        v.spec_finish(i) <==> ds[i].annotation is None,
{
}

/// Relation fidelity: the validator allows a transition exactly when the
/// target's name appears in the source's declared list; in particular a
/// state declared with an empty list can change into nothing, though it is
/// not a finish state.
pub proof fn lemma_relation_fidelity(v: Validator, ds: Seq<StateDecl>, i: int, j: int)
    requires
        v.validates(ds),
        0 <= i < ds.len(),
        0 <= j < ds.len(),
    ensures
        v.spec_rel(i, j) <==> (!ds[i].is_terminal() && ds[i].targets().contains(ds[j].name@)),
        ds[i].targets().len() == 0 ==> !v.spec_rel(i, j),
{
}

/// Count consistency: the embedded finish-state count equals the number of
/// declarations with no transition annotation.
pub proof fn lemma_count_consistency(v: Validator, ds: Seq<StateDecl>)
    requires
        v.validates(ds),
    ensures
        v.spec_finish_count() == count_terminal(ds),
{
}

/// Idempotent self-transition: a state that lists its own name among its
/// targets may legally change into itself, so `change` on such a pair
/// returns true and installs the proposed instance.
pub proof fn lemma_self_transition(v: Validator, ds: Seq<StateDecl>, i: int)
    requires
        v.validates(ds),
        0 <= i < ds.len(),
        ds[i].targets().contains(ds[i].name@),
    ensures
        v.spec_rel(i, i),
{
    assert(!ds[i].is_terminal()) by {
        if ds[i].is_terminal() {
            assert(ds[i].targets().len() == 0);
        }
    }
}

} // verus!
