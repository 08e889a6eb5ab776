//! Validation errors of the pipeline.
//!
//! Every failure of the pipeline is a structured error carrying a source
//! location: an opaque span handle that the caller (the token bridge)
//! assigned to the offending node while building the structured model, and
//! hands back to the host toolchain to locate the diagnostic.

use vstd::prelude::*;

verus! {

broadcast use vstd::string::group_string_axioms;

/// A validation error, located at the offending source span.
///
/// The pipeline is fail-fast: the first error found aborts the whole block
/// and no output is produced for it.
#[derive(Clone, Copy, Debug, PartialEq, Eq, Structural)]
pub enum MacroError {
    /// The block was declared with an unsafe qualifier.
    DisallowedQualifier { span: usize },
    /// The block implements a named trait instead of being a direct impl.
    DisallowedTraitForm { span: usize },
    /// A block member is not a function-like item.
    UnsupportedItem { span: usize },
    /// A handler's parameter list does not have exactly one entry.
    WrongArity { span: usize },
    /// A handler's sole parameter has no explicit type or is a receiver.
    UntypedOrReceiverParam { span: usize },
}

/// The diagnostic text of each error variant.
pub open spec fn spec_message(e: MacroError) -> Seq<char> {
    match e {
        MacroError::DisallowedQualifier { .. } => "unexpected 'unsafe impl' in #[auto_from] impl block"@,
        MacroError::DisallowedTraitForm { .. } => "expected direct impl, but found a trait implementation"@,
        MacroError::UnsupportedItem { .. } => "unexpected non-function item in #[auto_from] impl block"@,
        MacroError::WrongArity { .. } => "expected function taking one arguments: the message"@,
        MacroError::UntypedOrReceiverParam { .. } => "expected non-self argument with type"@,
    }
}

/// The span handle the error is located at.
pub open spec fn spec_span(e: MacroError) -> usize {
    match e {
        MacroError::DisallowedQualifier { span } => span,
        MacroError::DisallowedTraitForm { span } => span,
        MacroError::UnsupportedItem { span } => span,
        MacroError::WrongArity { span } => span,
        MacroError::UntypedOrReceiverParam { span } => span,
    }
}

impl MacroError {
    /// The diagnostic message the host toolchain should render.
    pub fn message(&self) -> (r: String)
        ensures
            r@ == spec_message(*self),
    {
        match self {
            MacroError::DisallowedQualifier { .. } => {
                "unexpected 'unsafe impl' in #[auto_from] impl block".to_string()
            },
            MacroError::DisallowedTraitForm { .. } => {
                "expected direct impl, but found a trait implementation".to_string()
            },
            MacroError::UnsupportedItem { .. } => {
                "unexpected non-function item in #[auto_from] impl block".to_string()
            },
            MacroError::WrongArity { .. } => {
                "expected function taking one arguments: the message".to_string()
            },
            MacroError::UntypedOrReceiverParam { .. } => {
                "expected non-self argument with type".to_string()
            },
        }
    }

    /// The span handle to attach the diagnostic to.
    pub fn span(&self) -> (r: usize)
        ensures
            r == spec_span(*self),
    {
        match self {
            MacroError::DisallowedQualifier { span } => *span,
            MacroError::DisallowedTraitForm { span } => *span,
            MacroError::UnsupportedItem { span } => *span,
            MacroError::WrongArity { span } => *span,
            MacroError::UntypedOrReceiverParam { span } => *span,
        }
    }
}

} // verus!
