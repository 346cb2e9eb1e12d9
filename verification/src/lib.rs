//! Generation-time handling of the `enumerate` field constraint.
//!
//! A constraint arrives in one of two declarative shapes: a parenthesized
//! list of items attached to the constraint path, or the constraint name
//! bound to an array expression. This crate normalizes either shape into a
//! canonical ordered sequence of literal values, rejects anything that is
//! not a plain literal with precise, aggregated diagnostics, and emits the
//! validation fragment — as structured data, not text — that checks a
//! field's runtime value against that set and records failures under the
//! field's serialized name.

pub mod context;
pub mod diagnostics;
pub mod enumerate;
pub mod syntax;
