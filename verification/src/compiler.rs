//! The schema-to-validator compiler.
//!
//! Compilation runs in one direction: the raw declarations are read into a
//! shape table, every annotation is checked and extracted, every target name
//! is resolved against the declared state set, and the resulting relation
//! and finish tables are assembled into a [`Validator`].  Any schema error
//! aborts compilation; no partial artifact is ever produced.

use crate::schema::{
    all_wf, arg_name, count_terminal, decl_names, error_of, names_unique, rel, shape_of,
    targets_known, AnnotationArg, FieldsDecl, RawAnnotation, Schema, SchemaBody, SchemaError,
    Shape, StateDecl,
};
use crate::validator::{count_true, Validator};
use vstd::prelude::*;

verus! {

/// Resolves every raw state's associated-data shape, in declaration order.
/// Every state has exactly one shape; there is no error case.
pub fn resolve_shapes(states: &Vec<StateDecl>) -> (shapes: Vec<Shape>)
    ensures
        shapes@.len() == states@.len(),
        forall|i: int| 0 <= i < states@.len() ==> shapes@[i] == shape_of(states@[i].fields),
{
    let mut shapes: Vec<Shape> = Vec::new();
    let n = states.len();
    let mut i: usize = 0;
    while i < n
        invariant
            n == states@.len(),
            i <= n,
            shapes@.len() == i,
            forall|m: int| 0 <= m < i ==> shapes@[m] == shape_of(states@[m].fields),
        decreases n - i,
    {
        let shape = match &states[i].fields {
            FieldsDecl::Unit => Shape::NoData,
            FieldsDecl::Positional(_) => Shape::PositionalData,
            FieldsDecl::Named(_) => Shape::NamedData,
        };
        shapes.push(shape);
        i = i + 1;
    }
    shapes
}

/// Extracts a state's declared target-name list.  Returns `Ok(None)` for a
/// state with no annotation (a finish state) and `Ok(Some(list))` for an
/// annotated state, where the list may be empty.  Any annotation that is not
/// a flat list of bare names is a [`SchemaError::MalformedAnnotation`]: it
/// is never misread as "terminal" or as "no restrictions".
pub fn extract(state: &StateDecl) -> (r: Result<Option<Vec<String>>, SchemaError>)
    ensures
        r is Ok <==> state.wf(),
        r is Err ==> r == Err::<Option<Vec<String>>, SchemaError>(SchemaError::MalformedAnnotation),
        (r matches Ok(opt) ==> (opt is None <==> state.is_terminal())),
        (r matches Ok(Some(list)) ==> list@.map_values(|s: String| s@) == state.targets()),
{
    match &state.annotation {
        None => Ok(None),
        Some(RawAnnotation::ArgList(args)) => {
            let mut list: Vec<String> = Vec::new();
            let n = args.len();
            let mut k: usize = 0;
            while k < n
                invariant
                    state.annotation == Some(RawAnnotation::ArgList(*args)),
                    n == args@.len(),
                    k <= n,
                    list@.len() == k,
                    forall|m: int| 0 <= m < k ==> args@[m] is Name,
                    forall|m: int| 0 <= m < k ==> list@[m]@ == arg_name(args@[m]),
                decreases n - k,
            {
                match &args[k] {
                    AnnotationArg::Name(s) => list.push(s.clone()),
                    AnnotationArg::KeyValue(_, _) => {
                        proof {
                            assert(!(args@[k as int] is Name));
                        }
                        return Err(SchemaError::MalformedAnnotation);
                    },
                    AnnotationArg::Literal(_) => {
                        proof {
                            assert(!(args@[k as int] is Name));
                        }
                        return Err(SchemaError::MalformedAnnotation);
                    },
                }
                k = k + 1;
            }
            proof {
                assert(list@.map_values(|s: String| s@) =~= args@.map_values(
                    |arg: AnnotationArg| arg_name(arg),
                ));
            }
            Ok(Some(list))
        },
        Some(RawAnnotation::Bare) => Err(SchemaError::MalformedAnnotation),
        Some(RawAnnotation::Value(_)) => Err(SchemaError::MalformedAnnotation),
    }
}

/// The views of a table of names, in order.
pub open spec fn name_views(names: Seq<String>) -> Seq<Seq<char>> {
    names.map_values(|s: String| s@)
}

/// Looks a target name up in the declared-name table and returns its tag.
fn find_state(names: &Vec<String>, target: &String) -> (r: Option<usize>)
    ensures
        (r matches Some(j) ==> j < names@.len() && names@[j as int]@ == target@),
        r is None ==> forall|j: int| 0 <= j < names@.len() ==> names@[j]@ != target@,
{
    let n = names.len();
    let mut j: usize = 0;
    while j < n
        invariant
            n == names@.len(),
            j <= n,
            forall|m: int| 0 <= m < j ==> names@[m]@ != target@,
        decreases n - j,
    {
        if names[j] == *target {
            return Some(j);
        }
        j = j + 1;
    }
    None
}

/// The relation row of a state that can change into nothing: a terminal
/// state, or one whose declared list is empty.
fn empty_row(n: usize) -> (row: Vec<bool>)
    ensures
        row@.len() == n,
        forall|j: int| 0 <= j < n ==> !row@[j],
{
    let mut row: Vec<bool> = Vec::new();
    let mut j: usize = 0;
    while j < n
        invariant
            j <= n,
            row@.len() == j,
            forall|m: int| 0 <= m < j ==> !row@[m],
        decreases n - j,
    {
        row.push(false);
        j = j + 1;
    }
    row
}

/// Builds one annotated state's relation row by resolving each declared
/// target name against the state-name table: `row[j]` ends up true exactly
/// when the list holds the name of state `j`.  A name that resolves to no
/// declared state is a [`SchemaError::UnknownTargetName`].
fn compile_relation_row(names: &Vec<String>, list: &Vec<String>) -> (r: Result<
    Vec<bool>,
    SchemaError,
>)
    requires
        forall|i: int, j: int| 0 <= i < j < names@.len() ==> names@[i]@ != names@[j]@,
    ensures
        r is Ok <==> (forall|k: int|
            0 <= k < list@.len() ==> name_views(names@).contains(list@[k]@)),
        r is Err ==> r == Err::<Vec<bool>, SchemaError>(SchemaError::UnknownTargetName),
        (r matches Ok(row) ==> {
            &&& row@.len() == names@.len()
            &&& forall|j: int|
                0 <= j < names@.len() ==> row@[j] == name_views(list@).contains(names@[j]@)
        }),
{
    let n = names.len();
    let m = list.len();
    let mut row: Vec<bool> = empty_row(n);
    let mut k: usize = 0;
    while k < m
        invariant
            n == names@.len(),
            m == list@.len(),
            k <= m,
            row@.len() == n,
            forall|i: int, j: int| 0 <= i < j < n ==> names@[i]@ != names@[j]@,
            forall|j: int|
                0 <= j < n ==> row@[j] == exists|k2: int|
                    0 <= k2 < k && list@[k2]@ == names@[j]@,
            forall|k2: int| 0 <= k2 < k ==> name_views(names@).contains(list@[k2]@),
        decreases m - k,
    {
        match find_state(names, &list[k]) {
            Some(j2) => {
                let ghost prev = row@;
                row[j2] = true;
                proof {
                    assert(name_views(names@)[j2 as int] == names@[j2 as int]@);
                    assert(name_views(names@).contains(list@[k as int]@));
                    assert forall|j: int| 0 <= j < n implies row@[j] == exists|k2: int|
                        0 <= k2 < k + 1 && list@[k2]@ == names@[j]@ by {
                        if j == j2 {
                            assert(list@[k as int]@ == names@[j]@);
                        } else {
                            assert(row@[j] == prev[j]);
                            assert(names@[j]@ != names@[j2 as int]@);
                        }
                    }
                }
            },
            None => {
                proof {
                    assert forall|idx: int|
                        0 <= idx < name_views(names@).len() implies name_views(names@)[idx]
                        != list@[k as int]@ by {
                        assert(name_views(names@)[idx] == names@[idx]@);
                    }
                    assert(!name_views(names@).contains(list@[k as int]@));
                }
                return Err(SchemaError::UnknownTargetName);
            },
        }
        k = k + 1;
    }
    proof {
        assert forall|j: int| 0 <= j < n implies row@[j] == name_views(list@).contains(
            names@[j]@,
        ) by {
            if row@[j] {
                let k2 = choose|k2: int| 0 <= k2 < m && list@[k2]@ == names@[j]@;
                assert(name_views(list@)[k2] == names@[j]@);
            }
            if name_views(list@).contains(names@[j]@) {
                let k2 = choose|k2: int|
                    0 <= k2 < name_views(list@).len() && name_views(list@)[k2] == names@[j]@;
                assert(list@[k2]@ == names@[j]@);
            }
        }
    }
    Ok(row)
}

/// Builds the finish table and the finish-state count in one pass: a state
/// is marked exactly when it carries no annotation, and the count is the
/// number of marked states, embedded once and never recomputed.
pub fn compile_finish(states: &Vec<StateDecl>) -> (r: (Vec<bool>, usize))
    ensures
        r.0@.len() == states@.len(),
        forall|i: int| 0 <= i < states@.len() ==> r.0@[i] == states@[i].is_terminal(),
        r.1 as nat == count_true(r.0@),
        r.1 as nat == count_terminal(states@),
{
    let n = states.len();
    let mut finish: Vec<bool> = Vec::new();
    let mut count: usize = 0;
    let mut i: usize = 0;
    while i < n
        invariant
            n == states@.len(),
            i <= n,
            finish@.len() == i,
            count <= i,
            forall|m: int| 0 <= m < i ==> finish@[m] == states@[m].is_terminal(),
            count as nat == count_true(finish@),
            count as nat == count_terminal(states@.take(i as int)),
        decreases n - i,
    {
        let terminal = match &states[i].annotation {
            None => true,
            Some(_) => false,
        };
        let ghost prev = finish@;
        finish.push(terminal);
        if terminal {
            count = count + 1;
        }
        proof {
            assert(finish@.drop_last() =~= prev);
            assert(finish@.last() == terminal);
            assert(states@.take(i + 1 as int).drop_last() =~= states@.take(i as int));
            assert(states@.take(i + 1 as int).last() == states@[i as int]);
        }
        i = i + 1;
    }
    proof {
        assert(states@.take(n as int) =~= states@);
    }
    (finish, count)
}

/// Copies the declared state names out into the tag-ordered name table.
fn collect_names(states: &Vec<StateDecl>) -> (names: Vec<String>)
    ensures
        names@.len() == states@.len(),
        forall|i: int| 0 <= i < states@.len() ==> names@[i]@ == states@[i].name@,
{
    let mut names: Vec<String> = Vec::new();
    let n = states.len();
    let mut i: usize = 0;
    while i < n
        invariant
            n == states@.len(),
            i <= n,
            names@.len() == i,
            forall|m: int| 0 <= m < i ==> names@[m]@ == states@[m].name@,
        decreases n - i,
    {
        names.push(states[i].name.clone());
        i = i + 1;
    }
    names
}

/// Compiles a schema into a transition validator.
///
/// A schema whose body is not a closed enumeration of states is refused as
/// [`SchemaError::NotAnEnumeration`].  Otherwise every annotation is checked
/// first — any that is not a flat list of bare names aborts compilation as
/// [`SchemaError::MalformedAnnotation`] — and then every declared target name
/// is resolved against the state set, any unresolved name aborting as
/// [`SchemaError::UnknownTargetName`].  On success the validator answers for
/// exactly the declared relation: `compile` returns `Ok(v)` with
/// `v.validates(ds)` holding of the declarations `ds`, and it returns `Ok`
/// if and only if the schema has no error.  No partial artifact is emitted
/// on any error.
pub fn compile(schema: &Schema) -> (r: Result<Validator, SchemaError>)
    requires
        schema.names_ok(),
    ensures
        r is Ok <==> error_of(*schema) is None,
        (r matches Err(e) ==> Some(e) == error_of(*schema)),
        (r matches Ok(v) ==> schema.body matches SchemaBody::Enumeration(ds) && v.validates(ds@)),
{
    match &schema.body {
        SchemaBody::Structure => Err(SchemaError::NotAnEnumeration),
        SchemaBody::Enumeration(states) => {
            let ghost ds = states@;
            let n = states.len();
            let names = collect_names(states);
            let shapes = resolve_shapes(states);
            // First pass: every annotation must be a flat list of bare
            // names, and is extracted into its target-name list.
            let mut lists: Vec<Option<Vec<String>>> = Vec::new();
            let mut i: usize = 0;
            while i < n
                invariant
                    schema.body matches SchemaBody::Enumeration(sts) && sts@ == ds,
                    states@ == ds,
                    n == ds.len(),
                    i <= n,
                    lists@.len() == i,
                    forall|m: int| 0 <= m < i ==> ds[m].wf(),
                    forall|m: int| 0 <= m < i ==> (lists@[m] is None <==> ds[m].is_terminal()),
                    forall|m: int| #![trigger lists@[m]]
                        0 <= m < i ==> (lists@[m] matches Some(l) ==> l@.map_values(|s: String| s@)
                            == ds[m].targets()),
                decreases n - i,
            {
                match extract(&states[i]) {
                    Ok(opt) => lists.push(opt),
                    Err(e) => {
                        proof {
                            assert(!ds[i as int].wf());
                            assert(!all_wf(ds));
                        }
                        return Err(e);
                    },
                }
                i = i + 1;
            }
            proof {
                assert(all_wf(ds));
            }
            // Second pass: resolve every target name and build the relation
            // table, one row per state; an unannotated state's row is all
            // false.
            let mut relation: Vec<Vec<bool>> = Vec::new();
            let mut i2: usize = 0;
            while i2 < n
                invariant
                    schema.body matches SchemaBody::Enumeration(sts) && sts@ == ds,
                    states@ == ds,
                    schema.names_ok(),
                    all_wf(ds),
                    n == ds.len(),
                    i2 <= n,
                    names@.len() == n,
                    forall|m: int| 0 <= m < n ==> names@[m]@ == ds[m].name@,
                    lists@.len() == n,
                    forall|m: int| 0 <= m < n ==> (lists@[m] is None <==> ds[m].is_terminal()),
                    forall|m: int| #![trigger lists@[m]]
                        0 <= m < n ==> (lists@[m] matches Some(l) ==> l@.map_values(|s: String| s@)
                            == ds[m].targets()),
                    relation@.len() == i2,
                    forall|m: int| 0 <= m < i2 ==> relation@[m]@.len() == n,
                    forall|m: int, j: int|
                        0 <= m < i2 && 0 <= j < n ==> relation@[m]@[j] == rel(ds, m, j),
                    forall|m: int, k: int|
                        0 <= m < i2 && 0 <= k < ds[m].targets().len() ==> decl_names(ds).contains(
                            ds[m].targets()[k],
                        ),
                decreases n - i2,
            {
                proof {
                    assert(names_unique(ds));
                    assert forall|a: int, b: int| 0 <= a < b < names@.len() implies names@[a]@
                        != names@[b]@ by {
                        assert(ds[a].name@ != ds[b].name@);
                    }
                    assert(name_views(names@) =~= decl_names(ds));
                }
                match &lists[i2] {
                    None => {
                        relation.push(empty_row(n));
                    },
                    Some(list) => {
                        match compile_relation_row(&names, list) {
                            Ok(row) => {
                                proof {
                                    assert(list@.map_values(|s: String| s@) == ds[
                                        i2 as int].targets());
                                    assert forall|j: int| 0 <= j < n implies row@[j] == rel(
                                        ds,
                                        i2 as int,
                                        j,
                                    ) by {
                                        assert(row@[j] == name_views(list@).contains(names@[j]@));
                                        assert(name_views(list@) == ds[i2 as int].targets());
                                        assert(names@[j]@ == ds[j].name@);
                                    }
                                }
                                relation.push(row);
                            },
                            Err(e) => {
                                proof {
                                    let k = choose|k: int|
                                        0 <= k < list@.len() && !name_views(names@).contains(
                                            list@[k]@,
                                        );
                                    assert(name_views(list@)[k] == list@[k]@);
                                    assert(ds[i2 as int].targets()[k] == list@[k]@);
                                    assert(!decl_names(ds).contains(ds[i2 as int].targets()[k]));
                                    assert(!targets_known(ds));
                                }
                                return Err(e);
                            },
                        }
                    },
                }
                i2 = i2 + 1;
            }
            proof {
                assert(targets_known(ds));
            }
            // Third pass: the finish table and its count.
            let finish_pair = compile_finish(states);
            let finish = finish_pair.0;
            let count = finish_pair.1;
            Ok(Validator::new(names, shapes, relation, finish, count))
        },
    }
}

} // verus!
