//! The `type` keyword.

use crate::compilation::CompilationContext;
use crate::error::{errors_view, CompilationError, SpecValidationError, ValidationError};
use crate::keywords::{compilation_view, result_view, CompilationResult, SpecValidator, Validator};
use crate::primitive_type::PrimitiveType;
use crate::value::{SpecValue, Value};
use vstd::prelude::*;

verus! {

/// The constraint that a document is of one primitive type.
#[derive(Debug)]
pub struct TypeValidator {
    expected: PrimitiveType,
}

/// The failures of `instance` against the type `expected`: none, or the
/// one that names the type.
pub open spec fn type_errors(expected: PrimitiveType, instance: SpecValue) -> Seq<
    SpecValidationError,
> {
    if expected.accepts(instance) {
        Seq::empty()
    } else {
        seq![SpecValidationError::Type { expected }]
    }
}

/// What a `type` fragment compiles to: the fragment has to be a string
/// that names a primitive type.
pub open spec fn spec_compile(schema: SpecValue) -> Result<SpecValidator, CompilationError> {
    match schema {
        SpecValue::String(name) => match PrimitiveType::spec_from_name(name) {
            Some(expected) => Ok(SpecValidator::Type(expected)),
            None => Err(CompilationError::SchemaError),
        },
        _ => Err(CompilationError::SchemaError),
    }
}

impl View for TypeValidator {
    type V = PrimitiveType;

    closed spec fn view(&self) -> PrimitiveType {
        self.expected
    }
}

impl TypeValidator {
    /// Compiles a `type` fragment.
    pub fn compile(schema: &Value) -> (result: CompilationResult)
        ensures
            result_view(result) == spec_compile(schema@),
    {
        match schema {
            Value::String(name) => match PrimitiveType::from_name(name) {
                Some(expected) => Ok(Validator::Type(TypeValidator { expected })),
                None => Err(CompilationError::SchemaError),
            },
            _ => Err(CompilationError::SchemaError),
        }
    }

    /// Tells whether `instance` is of the expected type.
    pub fn is_valid(&self, instance: &Value) -> (valid: bool)
        ensures
            valid == self@.accepts(instance@),
    {
        self.expected.check(instance)
    }

    /// Reports the failure of `instance` to be of the expected type.
    pub fn validate(&self, instance: &Value) -> (errors: Vec<ValidationError>)
        ensures
            errors_view(errors@) == type_errors(self@, instance@),
    {
        let mut errors: Vec<ValidationError> = Vec::new();
        if !self.expected.check(instance) {
            errors.push(ValidationError::Type { expected: self.expected });
        }
        errors
    }

    /// Describes the constraint.
    pub fn name(&self) -> (text: String)
        ensures
            text@ == "type: "@ + self@.spec_name(),
    {
        let mut text = String::from_str("type: ");
        let word = self.expected.name();
        text.append(word.as_str());
        text
    }
}

/// Compiles the `type` keyword of a schema object. The keyword's value is
/// `schema`; the rest of the object has no say in it.
pub fn compile(
    _parent: &Vec<(String, Value)>,
    schema: &Value,
    _context: &CompilationContext,
) -> (result: Option<CompilationResult>)
    ensures
        compilation_view(result) == Some(spec_compile(schema@)),
{
    Some(TypeValidator::compile(schema))
}

} // verus!
