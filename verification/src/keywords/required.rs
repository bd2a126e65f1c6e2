//! The `required` keyword, and the list form of a dependency.

use crate::compilation::CompilationContext;
use crate::error::{errors_view, CompilationError, SpecValidationError, ValidationError};
use crate::keywords::{compilation_view, result_view, CompilationResult, SpecValidator, Validator};
use crate::value::{SpecValue, Value};
use vstd::prelude::*;

verus! {

/// The constraint that an object holds every one of a list of properties.
#[derive(Debug)]
pub struct RequiredValidator {
    required: Vec<String>,
}

/// Whether `instance` holds every one of `names`. A document that is not
/// an object is not asked for any property.
pub open spec fn all_present(names: Seq<Seq<char>>, instance: SpecValue) -> bool {
    instance is Object ==> forall|i: int|
        0 <= i < names.len() ==> instance.has_key(#[trigger] names[i])
}

/// One failure for each of the first `n` of `names` that the object
/// `instance` lacks, in the order of the names.
pub open spec fn missing(names: Seq<Seq<char>>, n: nat, instance: SpecValue) -> Seq<
    SpecValidationError,
>
    decreases n,
{
    if 0 < n <= names.len() {
        let before = missing(names, (n - 1) as nat, instance);
        if instance is Object && !instance.has_key(names[n - 1]) {
            before.push(SpecValidationError::Required { property: names[n - 1] })
        } else {
            before
        }
    } else {
        Seq::empty()
    }
}

/// The first `n` of `names`, with `", "` between one and the next.
pub open spec fn joined(names: Seq<Seq<char>>, n: nat) -> Seq<char>
    decreases n,
{
    if 1 < n <= names.len() {
        joined(names, (n - 1) as nat) + ", "@ + names[n - 1]
    } else if n == 1 && n <= names.len() {
        names[0]
    } else {
        Seq::empty()
    }
}

/// The strings that a list of values holds, where every value is one.
pub open spec fn strings_of(items: Seq<SpecValue>) -> Option<Seq<Seq<char>>> {
    if forall|i: int| 0 <= i < items.len() ==> (#[trigger] items[i]) is String {
        Some(Seq::new(items.len(), |i: int| items[i]->String_0))
    } else {
        None
    }
}

/// What a list of property names compiles to: the fragment has to be an
/// array that holds nothing but strings.
pub open spec fn spec_compile(schema: SpecValue) -> Result<SpecValidator, CompilationError> {
    match schema {
        SpecValue::Array(items) => match strings_of(items) {
            Some(names) => Ok(SpecValidator::Required(names)),
            None => Err(CompilationError::SchemaError),
        },
        _ => Err(CompilationError::SchemaError),
    }
}

impl View for RequiredValidator {
    type V = Seq<Seq<char>>;

    closed spec fn view(&self) -> Seq<Seq<char>> {
        Seq::new(self.required.len() as nat, |i: int| self.required[i]@)
    }
}

impl RequiredValidator {
    /// Compiles a list of property names.
    pub fn compile(schema: &Value) -> (result: CompilationResult)
        ensures
            result_view(result) == spec_compile(schema@),
    {
        match schema {
            Value::Array(items) => {
                let mut required: Vec<String> = Vec::new();
                let mut i: usize = 0;
                while i < items.len()
                    invariant
                        0 <= i <= items.len(),
                        schema@ is Array,
                        schema@->Array_0.len() == items.len(),
                        forall|k: int| 0 <= k < items.len() ==> schema@->Array_0[k] == items[k]@,
                        required.len() == i,
                        forall|k: int|
                            0 <= k < i ==> (#[trigger] schema@->Array_0[k]) == SpecValue::String(
                                required[k]@,
                            ),
                    decreases items.len() - i,
                {
                    match &items[i] {
                        Value::String(name) => {
                            required.push(name.clone());
                        },
                        _ => {
                            assert(!(schema@->Array_0[i as int] is String));
                            return Err(CompilationError::SchemaError);
                        },
                    }
                    i += 1;
                }
                let validator = RequiredValidator { required };
                assert(validator@ =~= strings_of(schema@->Array_0).unwrap());
                Ok(Validator::Required(validator))
            },
            _ => Err(CompilationError::SchemaError),
        }
    }

    /// Tells whether `instance` holds every required property.
    pub fn is_valid(&self, instance: &Value) -> (valid: bool)
        ensures
            valid == all_present(self@, instance@),
    {
        match instance {
            Value::Object(_) => {
                let mut i: usize = 0;
                while i < self.required.len()
                    invariant
                        0 <= i <= self.required.len(),
                        instance@ is Object,
                        forall|k: int| 0 <= k < i ==> instance@.has_key(#[trigger] self@[k]),
                    decreases self.required.len() - i,
                {
                    if !instance.contains_key(&self.required[i]) {
                        assert(!instance@.has_key(self@[i as int]));
                        return false;
                    }
                    i += 1;
                }
                true
            },
            _ => true,
        }
    }

    /// Reports each required property that `instance` lacks.
    pub fn validate(&self, instance: &Value) -> (errors: Vec<ValidationError>)
        ensures
            errors_view(errors@) == missing(self@, self@.len(), instance@),
    {
        let mut errors: Vec<ValidationError> = Vec::new();
        match instance {
            Value::Object(_) => {
                let mut i: usize = 0;
                while i < self.required.len()
                    invariant
                        0 <= i <= self.required.len(),
                        self@.len() == self.required.len(),
                        instance@ is Object,
                        errors_view(errors@) == missing(self@, i as nat, instance@),
                    decreases self.required.len() - i,
                {
                    if !instance.contains_key(&self.required[i]) {
                        errors.push(
                            ValidationError::Required { property: self.required[i].clone() },
                        );
                    }
                    i += 1;
                }
            },
            _ => {
                proof {
                    lemma_missing_of_other(self@, self@.len(), instance@);
                }
            },
        }
        errors
    }

    /// Describes the constraint.
    pub fn name(&self) -> (text: String)
        ensures
            text@ == "required: ["@ + joined(self@, self@.len()) + "]"@,
    {
        let mut text = String::from_str("required: [");
        let mut i: usize = 0;
        assert(text@ =~= "required: ["@ + joined(self@, 0));
        while i < self.required.len()
            invariant
                0 <= i <= self.required.len(),
                self@.len() == self.required.len(),
                text@ == "required: ["@ + joined(self@, i as nat),
            decreases self.required.len() - i,
        {
            if i > 0 {
                text.append(", ");
            }
            text.append(self.required[i].as_str());
            assert(text@ =~= "required: ["@ + joined(self@, (i + 1) as nat));
            i += 1;
        }
        text.append("]");
        text
    }
}

/// A document that is not an object lacks nothing.
pub proof fn lemma_missing_of_other(names: Seq<Seq<char>>, n: nat, instance: SpecValue)
    requires
        !(instance is Object),
    ensures
        missing(names, n, instance) == Seq::<SpecValidationError>::empty(),
    decreases n,
{
    if 0 < n <= names.len() {
        lemma_missing_of_other(names, (n - 1) as nat, instance);
    }
}

/// Compiles the `required` keyword of a schema object. The keyword's value
/// is `schema`; the rest of the object has no say in it.
pub fn compile(
    _parent: &Vec<(String, Value)>,
    schema: &Value,
    _context: &CompilationContext,
) -> (result: Option<CompilationResult>)
    ensures
        compilation_view(result) == Some(spec_compile(schema@)),
{
    Some(RequiredValidator::compile(schema))
}

} // verus!
