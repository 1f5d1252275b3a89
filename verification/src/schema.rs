//! The abstract schema: the input to the compiler.
//!
//! The front-end that reads textual syntax is an external collaborator; it
//! hands the compiler an ordered list of raw state declarations.  This module
//! defines that input shape together with the spec-level functions that give
//! it meaning: which states are terminal, what each state's declared target
//! list is, and when a schema is free of errors.

use vstd::prelude::*;

verus! {

/// The associated-data shape of a state: no data, positional fields, or
/// named fields.  The shape never affects the transition relation; it only
/// records how a state's value is matched.
#[derive(Clone, Copy, PartialEq, Eq, Structural, Debug)]
pub enum Shape {
    /// The state carries no associated data.
    NoData,
    /// The state carries unnamed, positional fields.
    PositionalData,
    /// The state carries named fields.
    NamedData,
}

/// The field declaration of a raw state, as the front-end hands it over.
#[derive(Clone, Debug)]
pub enum FieldsDecl {
    /// No associated fields.
    Unit,
    /// Positional fields, given by their count.
    Positional(usize),
    /// Named fields, given by their names.
    Named(Vec<String>),
}

/// One argument inside a transition annotation.  Only a bare name is legal;
/// the other forms are kept so that a malformed annotation can be reported
/// rather than silently misread.
#[derive(Clone, Debug)]
pub enum AnnotationArg {
    /// A bare state name, e.g. `Running`.
    Name(String),
    /// A `key = value` pair.
    KeyValue(String, String),
    /// A literal, e.g. a quoted string.
    Literal(String),
}

/// A transition annotation as the front-end saw it written.  It is well
/// formed exactly when it is a flat list of bare names.
#[derive(Clone, Debug)]
pub enum RawAnnotation {
    /// A parenthesised argument list.
    ArgList(Vec<AnnotationArg>),
    /// A bare marker with no argument list.
    Bare,
    /// A single `= value` form.
    Value(String),
}

/// One raw state declaration.  `annotation` is `None` when the state carries
/// no transition annotation at all, which makes it a finish state; an
/// annotation with an empty list makes a non-terminal state that can never
/// change into anything.
#[derive(Clone, Debug)]
pub struct StateDecl {
    /// The state's unique name.
    pub name: String,
    /// The state's associated-data declaration.
    pub fields: FieldsDecl,
    /// The state's transition annotation, if it carries one.
    pub annotation: Option<RawAnnotation>,
}

/// The body of a schema declaration.  Only a closed enumeration of states
/// can be compiled.
#[derive(Clone, Debug)]
pub enum SchemaBody {
    /// A closed, ordered set of state declarations.
    Enumeration(Vec<StateDecl>),
    /// A record-like declaration: a single product of fields, not a closed
    /// state set.
    Structure,
}

/// A schema declaration: a name and a body.
#[derive(Clone, Debug)]
pub struct Schema {
    /// The name of the declared state-machine type.
    pub name: String,
    /// The declaration's body.
    pub body: SchemaBody,
}

/// The errors that abort compilation.  No partial artifact is emitted on any
/// of them.
#[derive(Clone, Copy, PartialEq, Eq, Structural, Debug)]
pub enum SchemaError {
    /// A transition annotation is not a flat list of bare names.
    MalformedAnnotation,
    /// A transition annotation references a name that no declared state has.
    UnknownTargetName,
    /// The schema's body is not a closed enumeration of states.
    NotAnEnumeration,
}

/// The shape that a field declaration resolves to.
pub open spec fn shape_of(f: FieldsDecl) -> Shape {
    match f {
        FieldsDecl::Unit => Shape::NoData,
        FieldsDecl::Positional(_) => Shape::PositionalData,
        FieldsDecl::Named(_) => Shape::NamedData,
    }
}

/// The name an annotation argument carries, meaningful only for a bare name.
pub open spec fn arg_name(a: AnnotationArg) -> Seq<char> {
    match a {
        AnnotationArg::Name(s) => s@,
        AnnotationArg::KeyValue(k, _) => k@,
        AnnotationArg::Literal(s) => s@,
    }
}

/// A raw annotation is well formed when it is an argument list whose every
/// argument is a bare name.
pub open spec fn annotation_wf(a: RawAnnotation) -> bool {
    match a {
        RawAnnotation::ArgList(args) => forall|k: int|
            0 <= k < args@.len() ==> args@[k] is Name,
        RawAnnotation::Bare => false,
        RawAnnotation::Value(_) => false,
    }
}

/// The ordered target-name list of a well-formed annotation.
pub open spec fn annotation_targets(a: RawAnnotation) -> Seq<Seq<char>> {
    match a {
        RawAnnotation::ArgList(args) => args@.map_values(|arg: AnnotationArg| arg_name(arg)),
        RawAnnotation::Bare => Seq::empty(),
        RawAnnotation::Value(_) => Seq::empty(),
    }
}

impl StateDecl {
    /// A state is terminal exactly when it carries no transition annotation.
    pub open spec fn is_terminal(self) -> bool {
        self.annotation is None
    }

    /// A state declaration is well formed when its annotation, if any, is a
    /// flat list of bare names.
    pub open spec fn wf(self) -> bool {
        match self.annotation {
            None => true,
            Some(a) => annotation_wf(a),
        }
    }

    /// The state's declared target-name list; empty for a terminal state.
    pub open spec fn targets(self) -> Seq<Seq<char>> {
        match self.annotation {
            None => Seq::empty(),
            Some(a) => annotation_targets(a),
        }
    }
}

/// The declared state names, in declaration order.
pub open spec fn decl_names(ds: Seq<StateDecl>) -> Seq<Seq<char>> {
    ds.map_values(|d: StateDecl| d.name@)
}

/// Every declared state name is distinct.  The schema promises this: a
/// state's name is its unique identifier.
pub open spec fn names_unique(ds: Seq<StateDecl>) -> bool {
    forall|i: int, j: int| 0 <= i < j < ds.len() ==> ds[i].name@ != ds[j].name@
}

/// Every state declaration's annotation is well formed.
pub open spec fn all_wf(ds: Seq<StateDecl>) -> bool {
    forall|i: int| 0 <= i < ds.len() ==> ds[i].wf()
}

/// Every target name in every declared list resolves to a declared state.
pub open spec fn targets_known(ds: Seq<StateDecl>) -> bool {
    forall|i: int, k: int|
        0 <= i < ds.len() && 0 <= k < ds[i].targets().len()
            ==> decl_names(ds).contains(ds[i].targets()[k])
}

/// The transition relation the schema declares: state `i` may change into
/// state `j` exactly when `i` carries an annotation whose list holds `j`'s
/// name.  A terminal state, and a state with an empty list, can change into
/// nothing.
pub open spec fn rel(ds: Seq<StateDecl>, i: int, j: int) -> bool {
    !ds[i].is_terminal() && ds[i].targets().contains(ds[j].name@)
}

/// The number of terminal (finish) states among the declarations.
pub open spec fn count_terminal(ds: Seq<StateDecl>) -> nat
    decreases ds.len(),
{
    if ds.len() == 0 {
        0
    } else {
        count_terminal(ds.drop_last()) + if ds.last().is_terminal() {
            1nat
        } else {
            0nat
        }
    }
}

impl Schema {
    /// The declared state names are unique, as the schema promises.
    pub open spec fn names_ok(self) -> bool {
        match self.body {
            SchemaBody::Enumeration(ds) => names_unique(ds@),
            SchemaBody::Structure => true,
        }
    }
}

/// The error a schema compiles to, if any.  A body that is not an
/// enumeration is refused outright; otherwise every annotation must be well
/// formed, and then every target name must resolve.
pub open spec fn error_of(s: Schema) -> Option<SchemaError> {
    match s.body {
        SchemaBody::Structure => Some(SchemaError::NotAnEnumeration),
        SchemaBody::Enumeration(ds) => if !all_wf(ds@) {
            Some(SchemaError::MalformedAnnotation)
        } else if !targets_known(ds@) {
            Some(SchemaError::UnknownTargetName)
        } else {
            None
        },
    }
}

} // verus!
