//! Diagnostics.
//!
//! Every malformed input is reported as a [`Diag`]: a kind plus the index of
//! the offending token in the input sequence (or the input length when the
//! problem is at the end of the input).  Expansion either succeeds completely
//! or fails with a single diagnostic; nothing is ever partially expanded.

use vstd::prelude::*;

verus! {

/// What went wrong.
#[derive(Clone, Copy, PartialEq, Eq, Structural, Debug)]
pub enum DiagKind {
    /// A field had to start here: a modifier or an identifier was expected.
    ExpectedField,
    /// An identifier was expected.
    ExpectedName,
    /// A non-empty path was expected inside the brackets of a custom
    /// transform modifier, or as the callable of a generated call method.
    ExpectedPath,
    /// A non-empty expression was expected.
    ExpectedExpr,
    /// A non-empty type was expected.
    ExpectedType,
    /// A `:` introducing a field type was expected.
    ExpectedColon,
    /// A `,` separating two items was expected.
    ExpectedComma,
    /// The keyword `in` after a spread-list was expected.
    ExpectedIn,
    /// The keyword `for` was expected.
    ExpectedFor,
    /// The keyword `fn` was expected.
    ExpectedFn,
    /// A brace-delimited group was expected.
    ExpectedBrace,
    /// A bracket-delimited group was expected.
    ExpectedBracket,
    /// A parenthesis-delimited group was expected.
    ExpectedParen,
    /// The input had to end here.
    ExpectedEnd,
    /// An opening delimiter has no matching closing delimiter.
    UnclosedGroup,
    /// A field list that must not be empty is empty.
    EmptyFields,
    /// A final-spread item is followed by another item.
    FinalSpreadNotLast,
    /// A final-spread item is followed by a trailing comma.
    TrailingCommaAfterFinalSpread,
    /// A final-spread item is not allowed in this form.
    FinalSpreadNotAllowed,
    /// A `mut` binding prefix is not allowed in this form.
    MutNotAllowed,
    /// A receiver field allows only the plain, `&` and `&mut` modifiers.
    SelfModifierNotAllowed,
    /// A receiver field is allowed only once, in first position.
    SelfNotFirst,
    /// Either every field declares a default value or none does.
    MixedDefaults,
    /// A receiver was declared but the callable path is not a method path.
    SelfNotMethod,
}

/// A diagnostic: a kind and the index of the offending token.
#[derive(Clone, Copy, PartialEq, Eq, Structural, Debug)]
pub struct Diag {
    pub kind: DiagKind,
    pub pos: usize,
}

/// Shorthand used by parsers and validators.
pub open spec fn diag(kind: DiagKind, pos: int) -> Diag {
    Diag { kind, pos: pos as usize }
}

/// Executable counterpart of [`diag`].
pub fn mk_diag(kind: DiagKind, pos: usize) -> (r: Diag)
    ensures
        r == diag(kind, pos as int),
{
    Diag { kind, pos }
}

} // verus!
