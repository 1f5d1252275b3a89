//! Tests for the compiled validator: the transition relation, the finish
//! set, the count, and the conditional mutation of a caller's state value.

use fxsm::compiler::compile;
use fxsm::schema::{
    AnnotationArg, FieldsDecl, RawAnnotation, Schema, SchemaBody, StateDecl,
};
use fxsm::validator::{Payload, StateValue, Validator};

fn unit_state(name: &str, targets: Option<&[&str]>) -> StateDecl {
    StateDecl {
        name: name.to_string(),
        fields: FieldsDecl::Unit,
        annotation: targets.map(|ts| {
            RawAnnotation::ArgList(
                ts.iter().map(|t| AnnotationArg::Name(t.to_string())).collect(),
            )
        }),
    }
}

fn enum_schema(states: Vec<StateDecl>) -> Schema {
    Schema { name: "Machine".to_string(), body: SchemaBody::Enumeration(states) }
}

fn bare(tag: usize) -> StateValue {
    StateValue { tag, payload: Payload::NoData }
}

/// `{Idle: transitions=[Running], Running: transitions=[Idle, Done],
/// Done: no annotation}` — tags 0, 1, 2.
fn idle_running_done() -> Validator {
    compile(&enum_schema(vec![
        unit_state("Idle", Some(&["Running"])),
        unit_state("Running", Some(&["Idle", "Done"])),
        unit_state("Done", None),
    ]))
    .unwrap()
}

#[test]
fn example_idle_running_done() {
    let v = idle_running_done();
    assert_eq!(v.finish_states(), 1);
    assert!(v.is_finish_state(&bare(2)));
    assert!(v.can_change(&bare(0), &bare(1)));
    assert!(!v.can_change(&bare(0), &bare(2)));
    let mut running = bare(1);
    assert!(v.change(&mut running, bare(2)));
    assert_eq!(running.tag, 2);
}

#[test]
fn totality_over_every_pair() {
    // Every (source, target) pair gets an answer, the pair of a state with
    // itself included; the full relation of the example schema is exactly
    // the declared one.
    let v = idle_running_done();
    let legal = [(0, 1), (1, 0), (1, 2)];
    for s in 0..3 {
        for t in 0..3 {
            assert_eq!(v.can_change(&bare(s), &bare(t)), legal.contains(&(s, t)));
        }
    }
}

#[test]
fn terminal_states_are_exactly_the_unannotated() {
    let v = idle_running_done();
    assert!(!v.is_finish_state(&bare(0)));
    assert!(!v.is_finish_state(&bare(1)));
    assert!(v.is_finish_state(&bare(2)));
    assert!(!v.at_finish_state(&bare(1)));
    assert!(v.at_finish_state(&bare(2)));
}

#[test]
fn rejected_change_leaves_current_untouched() {
    let v = idle_running_done();
    let mut idle = StateValue { tag: 0, payload: Payload::Positional(vec![7]) };
    assert!(!v.change(&mut idle, bare(2)));
    assert_eq!(idle.tag, 0);
    assert!(matches!(&idle.payload, Payload::Positional(p) if p == &vec![7]));
}

#[test]
fn terminal_state_cannot_be_exited() {
    let v = idle_running_done();
    let mut done = bare(2);
    assert!(!v.change(&mut done, bare(0)));
    assert!(!v.change(&mut done, bare(1)));
    assert!(!v.change(&mut done, bare(2)));
    assert_eq!(done.tag, 2);
}

#[test]
fn empty_list_state_is_stuck_but_not_finished() {
    // A state with an explicit empty transition list is not a finish state,
    // yet it can change into nothing.
    let v = compile(&enum_schema(vec![
        unit_state("Stuck", Some(&[])),
        unit_state("Done", None),
    ]))
    .unwrap();
    assert!(!v.is_finish_state(&bare(0)));
    assert!(!v.can_change(&bare(0), &bare(0)));
    assert!(!v.can_change(&bare(0), &bare(1)));
    assert_eq!(v.finish_states(), 1);
}

#[test]
fn self_transition_replaces_the_payload() {
    // A state that lists itself may change into itself, and the proposed
    // instance's payload replaces the current one.
    let v = compile(&enum_schema(vec![StateDecl {
        name: "Counting".to_string(),
        fields: FieldsDecl::Positional(1),
        annotation: Some(RawAnnotation::ArgList(vec![AnnotationArg::Name(
            "Counting".to_string(),
        )])),
    }]))
    .unwrap();
    let mut cur = StateValue { tag: 0, payload: Payload::Positional(vec![1]) };
    let proposed = StateValue { tag: 0, payload: Payload::Positional(vec![2]) };
    assert!(v.can_change(&cur, &proposed));
    assert!(v.change(&mut cur, proposed));
    assert_eq!(cur.tag, 0);
    assert!(matches!(&cur.payload, Payload::Positional(p) if p == &vec![2]));
}

#[test]
fn finish_count_matches_unannotated_states() {
    let all_terminal = compile(&enum_schema(vec![
        unit_state("A", None),
        unit_state("B", None),
        unit_state("C", None),
    ]))
    .unwrap();
    assert_eq!(all_terminal.finish_states(), 3);

    let none_terminal = compile(&enum_schema(vec![
        unit_state("A", Some(&["B"])),
        unit_state("B", Some(&[])),
    ]))
    .unwrap();
    assert_eq!(none_terminal.finish_states(), 0);

    let mixed = idle_running_done();
    assert_eq!(mixed.finish_states(), 1);
    assert_eq!(mixed.state_count(), 3);
}

#[test]
fn payload_never_influences_the_relation() {
    let v = idle_running_done();
    let idle_with_data = StateValue { tag: 0, payload: Payload::Named(vec![("retries".to_string(), 3)]) };
    let running_with_data = StateValue { tag: 1, payload: Payload::Positional(vec![9, 9]) };
    assert!(v.can_change(&idle_with_data, &running_with_data));
    assert!(!v.can_change(&running_with_data, &running_with_data));
}

#[test]
fn duplicate_targets_do_not_widen_the_relation() {
    let v = compile(&enum_schema(vec![
        unit_state("Idle", Some(&["Done", "Done"])),
        unit_state("Done", None),
    ]))
    .unwrap();
    assert!(v.can_change(&bare(0), &bare(1)));
    assert!(!v.can_change(&bare(0), &bare(0)));
    assert_eq!(v.finish_states(), 1);
}
