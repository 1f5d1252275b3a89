//! A compiler from a declarative state-machine schema to a runtime transition
//! validator.
//!
//! A schema is a closed, ordered set of named states.  Each state may carry
//! associated data (none, positional, or named fields) and may carry a
//! transition annotation: an ordered list of the names of the states it is
//! allowed to change into.  A state without an annotation is a finish
//! (terminal) state; a state whose annotation lists no names is not terminal
//! but can never change into anything.
//!
//! [`compiler::compile`] resolves a schema into a [`validator::Validator`],
//! an immutable lookup table that answers, with no further parsing, whether a
//! transition is legal, whether a state is terminal, and how many terminal
//! states the schema has.

pub mod compiler;
pub mod laws;
pub mod schema;
pub mod validator;
