//! Capability-compatibility validation of boolean-expression (predicate) types.
//!
//! Given a predicate type over an object — built from scalar fields, nested
//! object fields, nested object-array fields and relationship fields — and the
//! capabilities a data connector declares, this crate decides whether every
//! part of the predicate type can be executed against that connector. A
//! mismatch is either fatal (a [`schema::BooleanExpressionError`], which aborts
//! the whole check) or a degraded-feature warning (a
//! [`schema::BooleanExpressionIssue`], accumulated over the whole tree and
//! returned only on overall success).

pub mod laws;
pub mod lookup;
pub mod model_registry;
pub mod schema;
pub mod validate;
