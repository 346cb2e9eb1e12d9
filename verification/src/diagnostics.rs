//! Structured, located descriptions of malformed constraint declarations.
//!
//! A malformed declaration is reported at generation time, never at
//! runtime. All diagnostics found in one constraint are returned together,
//! in discovery order, so the surrounding generator can surface every
//! problem of a generation attempt at once.

use vstd::prelude::*;

use crate::syntax::Span;

verus! {

/// What is wrong with a constraint declaration.
#[derive(Clone, Copy, PartialEq, Eq, Structural, Debug)]
pub enum DiagnosticKind {
    /// The list form's argument tokens are themselves malformed.
    ParseFailure,
    /// The list form was given with zero items.
    MissingItems,
    /// A non-literal item stood where a literal was required.
    LiteralOnly,
    /// A closure-shaped item stood where a literal was required.
    ClosureNotSupported,
    /// The name/value form's bound expression is not an array.
    NeedArray,
}

/// One failure in a constraint declaration: its kind, and the place in the
/// source it refers to.
#[derive(Clone, Copy, PartialEq, Eq, Structural, Debug)]
pub struct Diagnostic {
    pub kind: DiagnosticKind,
    pub span: Span,
}

/// The diagnostics of one constraint, in discovery order.
pub type Errors = Vec<Diagnostic>;

} // verus!
