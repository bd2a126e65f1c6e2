//! The constraint of the schema `false`.

use crate::error::{errors_view, SpecValidationError, ValidationError};
use crate::value::Value;
use vstd::prelude::*;

verus! {

/// The constraint that no document meets.
#[derive(Debug)]
pub struct FalseValidator {}

impl FalseValidator {
    /// Compiles the constraint.
    pub fn compile() -> (validator: FalseValidator) {
        FalseValidator {  }
    }

    /// Refuses every document.
    pub fn is_valid(&self, _instance: &Value) -> (valid: bool)
        ensures
            !valid,
    {
        false
    }

    /// Reports the one failure that every document has.
    pub fn validate(&self, _instance: &Value) -> (errors: Vec<ValidationError>)
        ensures
            errors_view(errors@) == seq![SpecValidationError::FalseSchema],
    {
        let mut errors: Vec<ValidationError> = Vec::new();
        errors.push(ValidationError::FalseSchema);
        errors
    }

    /// Describes the constraint.
    pub fn name(&self) -> (text: String)
        ensures
            text@ == "false"@,
    {
        String::from_str("false")
    }
}

} // verus!
