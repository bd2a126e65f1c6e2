//! What compilation and evaluation report.

use crate::primitive_type::PrimitiveType;
use vstd::prelude::*;

verus! {

/// Why a schema fragment could not be compiled.
#[derive(Clone, Copy, Debug, PartialEq, Eq, Structural)]
pub enum CompilationError {
    /// The fragment does not have the shape that its keyword needs.
    SchemaError,
}

/// The mathematical value of a [`ValidationError`].
pub enum SpecValidationError {
    FalseSchema,
    Required { property: Seq<char> },
    Type { expected: PrimitiveType },
}

/// One constraint that a document failed.
#[derive(Debug, PartialEq, Eq)]
pub enum ValidationError {
    /// The schema accepts no document at all.
    FalseSchema,
    /// A property that has to be present is missing.
    Required { property: String },
    /// The document is not of the expected type.
    Type { expected: PrimitiveType },
}

impl View for ValidationError {
    type V = SpecValidationError;

    open spec fn view(&self) -> SpecValidationError {
        match self {
            ValidationError::FalseSchema => SpecValidationError::FalseSchema,
            ValidationError::Required { property } => SpecValidationError::Required {
                property: property@,
            },
            ValidationError::Type { expected } => SpecValidationError::Type { expected: *expected },
        }
    }
}

/// The mathematical values of a list of errors, in the same order.
pub open spec fn errors_view(errors: Seq<ValidationError>) -> Seq<SpecValidationError> {
    errors.map_values(|e: ValidationError| e@)
}

} // verus!
