//! The attribute syntax, as far as this crate reads it.
//!
//! The host front end parses the surrounding source; this crate only ever
//! looks at the shape of the constraint's arguments. The types here hold
//! exactly that shape as plain values, so every decision taken on them can
//! be verified. Concrete source locations stay with the front end: it
//! interns them and hands out opaque [`Span`] identifiers, which diagnostics
//! carry back so the host can point at the offending syntax.

use vstd::prelude::*;

verus! {

/// An opaque reference to a place in the constraint's source text.
#[derive(Clone, Copy, PartialEq, Eq, Structural, Debug)]
pub struct Span {
    pub id: usize,
}

/// A literal value as written in the attribute: a fixed scalar, never a
/// computed expression.
#[derive(Clone, Debug, PartialEq, Eq)]
pub enum LitKind {
    Int(i64),
    Bool(bool),
    Str(String),
    /// Any other literal shape, carried as its source text.
    Verbatim(String),
}

/// One literal together with the place it was written.
#[derive(Clone, Debug, PartialEq, Eq)]
pub struct Lit {
    pub kind: LitKind,
    pub span: Span,
}

/// One parsed argument of the list form, classified by shape.
#[derive(Debug, PartialEq, Eq)]
pub enum NestedMeta {
    /// A plain literal: the only shape the constraint accepts.
    Lit(Lit),
    /// A nested meta expression (a path, or a further meta item).
    Meta(Span),
    /// A closure-shaped expression.
    Closure(Span),
}

/// The outcome of parsing the list form's argument tokens.
#[derive(Debug, PartialEq, Eq)]
pub enum ListArgs {
    /// The tokens parsed as a comma-separated sequence of items.
    Parsed(Vec<NestedMeta>),
    /// The tokens do not parse as such a sequence.
    Malformed,
}

/// The list form of the constraint: a parenthesized, comma-separated item
/// sequence attached to the constraint path, as in `enumerate(1, 2, 3)`.
#[derive(Debug, PartialEq, Eq)]
pub struct MetaList {
    /// Where the constraint path itself stands.
    pub path_span: Span,
    /// Where the whole list stands.
    pub span: Span,
    /// The parsed argument tokens.
    pub args: ListArgs,
}

/// An expression bound in the name/value form, as far as this crate reads
/// it: a literal, an array of further expressions, or anything else.
#[derive(Debug, PartialEq, Eq)]
pub enum Expr {
    Lit(Lit),
    Array(ExprArray),
    Other(Span),
}

/// An array expression and the place it was written.
#[derive(Debug, PartialEq, Eq)]
pub struct ExprArray {
    pub elems: Vec<Expr>,
    pub span: Span,
}

/// The name/value form of the constraint: the constraint name bound to a
/// single expression, as in `enumerate = [1, 2, 3]`.
#[derive(Debug, PartialEq, Eq)]
pub struct MetaNameValue {
    /// The bound expression.
    pub value: Expr,
}

impl Expr {
    /// The place this expression stands at.
    pub open spec fn spec_span(&self) -> Span {
        match self {
            Expr::Lit(l) => l.span,
            Expr::Array(a) => a.span,
            Expr::Other(s) => *s,
        }
    }

    #[verifier::when_used_as_spec(spec_span)]
    pub fn span(&self) -> (s: Span)
        ensures
            s == self.spec_span(),
    {
        match self {
            Expr::Lit(l) => l.span,
            Expr::Array(a) => a.span,
            Expr::Other(s) => *s,
        }
    }
}

} // verus!
