use vstd::prelude::*;

verus! {

/// Errors reported while describing generated Rust methods.
#[derive(Debug, Clone, Copy, PartialEq, Eq, Structural)]
pub enum InfoError {
    /// The first argument is named `self` but its type is not a value
    /// or a reference.
    InvalidSelfArgumentType,
    /// The kinds of `self` arguments of a group of overloaded methods
    /// cannot be told apart by a name suffix.
    UnsupportedSelfArgKindsCombination,
    /// A Rust name must have at least one part.
    EmptyRustName,
    /// Producing the caption of an argument type failed.
    ArgumentTypeCaption,
}

impl InfoError {
    /// A human-readable description of the error.
    pub fn message(&self) -> (r: &'static str)
        ensures
            r@ == info_error_message(*self),
    {
        match self {
            InfoError::InvalidSelfArgumentType => "invalid self argument type",
            InfoError::UnsupportedSelfArgKindsCombination => "unsupported self arg kinds combination",
            InfoError::EmptyRustName => "RustName can't be empty",
            InfoError::ArgumentTypeCaption => "argument type caption is not available",
        }
    }
}

/// The text of each error.
pub open spec fn info_error_message(e: InfoError) -> Seq<char> {
    match e {
        InfoError::InvalidSelfArgumentType => "invalid self argument type"@,
        InfoError::UnsupportedSelfArgKindsCombination => "unsupported self arg kinds combination"@,
        InfoError::EmptyRustName => "RustName can't be empty"@,
        InfoError::ArgumentTypeCaption => "argument type caption is not available"@,
    }
}

} // verus!
