use vstd::prelude::*;

verus! {

/// Why a generation call failed.
///
/// Every error is fatal for the current call: no partial artifact is
/// produced and nothing is retried.
#[derive(Clone, Copy, Debug, PartialEq, Eq, Structural)]
pub enum Error {
    /// The caller-supplied categories break a structural invariant
    /// (`all_cols` is not `fixed` followed by `witness`, or
    /// `all_cols_and_shifts` is not `all_cols` followed by `shifted`).
    InvariantViolation,
    /// The template refers to a binding that the context does not hold.
    MissingBinding,
    /// The template text itself does not parse.
    TemplateSyntaxError,
    /// The template hands the join operator (or another template-level
    /// construct) a value it cannot accept, such as a non-sequence argument.
    TemplateBindingError,
}

} // verus!
