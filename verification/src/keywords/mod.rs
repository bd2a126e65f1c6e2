//! The constraints that a schema compiles to, and what each one means.
//!
//! A constraint is one of a closed set of kinds. Each kind can be asked for
//! a plain verdict on a document, for the list of its failures, and for a
//! name that describes it.

pub mod agreement;
pub mod boolean;
pub mod dependencies;
pub mod properties;
pub mod required;
pub mod type_;

use crate::error::{errors_view, CompilationError, SpecValidationError, ValidationError};
use crate::keywords::boolean::FalseValidator;
use crate::keywords::dependencies::DependenciesValidator;
use crate::keywords::properties::PropertiesValidator;
use crate::keywords::required::RequiredValidator;
use crate::keywords::type_::TypeValidator;
use crate::primitive_type::PrimitiveType;
use crate::value::{SpecValue, Value};
use vstd::prelude::*;

verus! {

/// Lists of constraints under the property names that they belong to.
pub type SpecEntries = Seq<(Seq<char>, Seq<SpecValidator>)>;

/// The mathematical value of a compiled constraint.
pub enum SpecValidator {
    /// Constraints on the whole document, each list in force only where
    /// the document holds the property named beside it.
    Dependencies(SpecEntries),
    /// The constraint that no document meets.
    False,
    /// Constraints on the values of the named properties.
    Properties(SpecEntries),
    /// Properties that an object has to hold.
    Required(Seq<Seq<char>>),
    /// The type that the document has to be of.
    Type(PrimitiveType),
}

impl SpecValidator {
    /// Whether `instance` meets the constraint.
    pub open spec fn is_valid(self, instance: SpecValue) -> bool
        decreases self,
    {
        match self {
            SpecValidator::Dependencies(table) => dependencies::table_is_valid(table, instance),
            SpecValidator::False => false,
            SpecValidator::Properties(properties) => properties::properties_are_valid(
                properties,
                instance,
            ),
            SpecValidator::Required(names) => required::all_present(names, instance),
            SpecValidator::Type(expected) => expected.accepts(instance),
        }
    }

    /// The failures of `instance` against the constraint, in order.
    pub open spec fn validate(self, instance: SpecValue) -> Seq<SpecValidationError>
        decreases self,
    {
        match self {
            SpecValidator::Dependencies(table) => dependencies::table_errors(
                table,
                table.len(),
                instance,
            ),
            SpecValidator::False => seq![SpecValidationError::FalseSchema],
            SpecValidator::Properties(properties) => properties::properties_errors(
                properties,
                properties.len(),
                instance,
            ),
            SpecValidator::Required(names) => required::missing(names, names.len(), instance),
            SpecValidator::Type(expected) => type_::type_errors(expected, instance),
        }
    }

    /// The text that describes the constraint.
    pub open spec fn name(self) -> Seq<char>
        decreases self,
    {
        match self {
            SpecValidator::Dependencies(table) => "dependencies: {"@ + key_value_names(
                table,
                table.len(),
            ) + "}"@,
            SpecValidator::False => "false"@,
            SpecValidator::Properties(properties) => "properties: {"@ + key_value_names(
                properties,
                properties.len(),
            ) + "}"@,
            SpecValidator::Required(names) => "required: ["@ + required::joined(
                names,
                names.len(),
            ) + "]"@,
            SpecValidator::Type(expected) => "type: "@ + expected.spec_name(),
        }
    }
}

/// Whether `instance` meets every constraint of the list.
pub open spec fn all_valid(validators: Seq<SpecValidator>, instance: SpecValue) -> bool
    decreases validators,
{
    forall|i: int| 0 <= i < validators.len() ==> (#[trigger] validators[i]).is_valid(instance)
}

/// The failures of `instance` against the first `n` constraints of the
/// list: those of the first constraint, then those of the second, and so on.
pub open spec fn all_errors(validators: Seq<SpecValidator>, n: nat, instance: SpecValue) -> Seq<
    SpecValidationError,
>
    decreases validators, n,
{
    if 0 < n <= validators.len() {
        all_errors(validators, (n - 1) as nat, instance) + validators[n - 1].validate(instance)
    } else {
        Seq::empty()
    }
}

/// The names of the first `n` constraints of the list, with `", "`
/// between one and the next.
pub open spec fn names_joined(validators: Seq<SpecValidator>, n: nat) -> Seq<char>
    decreases validators, n,
{
    if 1 < n <= validators.len() {
        names_joined(validators, (n - 1) as nat) + ", "@ + validators[n - 1].name()
    } else if n == 1 && n <= validators.len() {
        validators[0].name()
    } else {
        Seq::empty()
    }
}

/// The text for a list of constraints: their names in braces.
pub open spec fn validators_name(validators: Seq<SpecValidator>) -> Seq<char>
    decreases validators, validators.len() + 1,
{
    "{"@ + names_joined(validators, validators.len()) + "}"@
}

/// The text for one entry: the property name, a colon and the text for the
/// entry's constraints.
pub open spec fn key_value_name(entry: (Seq<char>, Seq<SpecValidator>)) -> Seq<char>
    decreases entry,
{
    entry.0 + ": "@ + validators_name(entry.1)
}

/// The texts of the first `n` entries, with `", "` between one and the
/// next.
pub open spec fn key_value_names(entries: SpecEntries, n: nat) -> Seq<char>
    decreases entries, n,
{
    if 1 < n <= entries.len() {
        key_value_names(entries, (n - 1) as nat) + ", "@ + key_value_name(entries[n - 1])
    } else if n == 1 && n <= entries.len() {
        key_value_name(entries[0])
    } else {
        Seq::empty()
    }
}

/// What compiling one keyword gives: nothing where the keyword adds no
/// constraint, else the constraint or the reason why there is none.
pub type SpecCompilation = Option<Result<SpecValidator, CompilationError>>;

/// A compiled constraint.
#[derive(Debug)]
pub enum Validator {
    Dependencies(DependenciesValidator),
    False(FalseValidator),
    Properties(PropertiesValidator),
    Required(RequiredValidator),
    Type(TypeValidator),
}

/// The constraints that one schema compiles to, in the order of its
/// keywords.
pub type Validators = Vec<Validator>;

/// What compiling one constraint gives.
pub type CompilationResult = Result<Validator, CompilationError>;

/// The mathematical values of a list of constraints, in the same order.
pub open spec fn validators_view(validators: Seq<Validator>) -> Seq<SpecValidator>
    decreases validators,
{
    Seq::new(
        validators.len(),
        |i: int|
            if 0 <= i < validators.len() {
                validators[i].view()
            } else {
                SpecValidator::False
            },
    )
}

/// The mathematical values of a list of entries, in the same order.
pub open spec fn entries_view(entries: Seq<(String, Validators)>) -> SpecEntries
    decreases entries,
{
    Seq::new(
        entries.len(),
        |i: int|
            if 0 <= i < entries.len() {
                (entries[i].0@, validators_view(entries[i].1@))
            } else {
                (Seq::empty(), Seq::empty())
            },
    )
}

/// The mathematical value of what compiling one constraint gave.
pub open spec fn result_view(result: CompilationResult) -> Result<
    SpecValidator,
    CompilationError,
> {
    match result {
        Ok(validator) => Ok(validator@),
        Err(error) => Err(error),
    }
}

/// The mathematical value of what compiling one keyword gave.
pub open spec fn compilation_view(result: Option<CompilationResult>) -> SpecCompilation {
    match result {
        Some(result) => Some(result_view(result)),
        None => None,
    }
}

impl Validator {
    /// The mathematical value of this constraint.
    pub open spec fn view(&self) -> SpecValidator
        decreases self,
    {
        match self {
            Validator::Dependencies(validator) => SpecValidator::Dependencies(validator.view()),
            Validator::False(_) => SpecValidator::False,
            Validator::Properties(validator) => SpecValidator::Properties(validator.view()),
            Validator::Required(validator) => SpecValidator::Required(validator@),
            Validator::Type(validator) => SpecValidator::Type(validator@),
        }
    }

    /// Tells whether `instance` meets the constraint.
    pub fn is_valid(&self, instance: &Value) -> (valid: bool)
        ensures
            valid == self@.is_valid(instance@),
        decreases self,
    {
        match self {
            Validator::Dependencies(validator) => validator.is_valid(instance),
            Validator::False(validator) => validator.is_valid(instance),
            Validator::Properties(validator) => validator.is_valid(instance),
            Validator::Required(validator) => validator.is_valid(instance),
            Validator::Type(validator) => validator.is_valid(instance),
        }
    }

    /// Reports every failure of `instance` against the constraint.
    pub fn validate(&self, instance: &Value) -> (errors: Vec<ValidationError>)
        ensures
            errors_view(errors@) == self@.validate(instance@),
            errors@.len() == 0 <==> self@.is_valid(instance@),
        decreases self,
    {
        proof {
            agreement::lemma_validator_agrees(self@, instance@);
        }
        let errors = match self {
            Validator::Dependencies(validator) => validator.validate(instance),
            Validator::False(validator) => validator.validate(instance),
            Validator::Properties(validator) => validator.validate(instance),
            Validator::Required(validator) => validator.validate(instance),
            Validator::Type(validator) => validator.validate(instance),
        };
        errors
    }

    /// Describes the constraint.
    pub fn name(&self) -> (text: String)
        ensures
            text@ == self@.name(),
        decreases self,
    {
        match self {
            Validator::Dependencies(validator) => validator.name(),
            Validator::False(validator) => validator.name(),
            Validator::Properties(validator) => validator.name(),
            Validator::Required(validator) => validator.name(),
            Validator::Type(validator) => validator.name(),
        }
    }
}

/// Tells whether `instance` meets every constraint of the list; stops at
/// the first that it does not meet.
pub fn all_are_valid(validators: &Validators, instance: &Value) -> (valid: bool)
    ensures
        valid == all_valid(validators_view(validators@), instance@),
    decreases validators,
{
    let mut i: usize = 0;
    while i < validators.len()
        invariant
            0 <= i <= validators.len(),
            forall|k: int|
                0 <= k < i ==> (#[trigger] validators_view(validators@)[k]).is_valid(instance@),
        decreases validators.len() - i,
    {
        if !validators[i].is_valid(instance) {
            assert(!validators_view(validators@)[i as int].is_valid(instance@));
            return false;
        }
        i += 1;
    }
    true
}

/// Reports every failure of `instance` against the constraints of the
/// list, constraint by constraint.
pub fn all_failures(validators: &Validators, instance: &Value) -> (errors: Vec<ValidationError>)
    ensures
        errors_view(errors@) == all_errors(
            validators_view(validators@),
            validators.len() as nat,
            instance@,
        ),
    decreases validators,
{
    let mut errors: Vec<ValidationError> = Vec::new();
    let mut i: usize = 0;
    while i < validators.len()
        invariant
            0 <= i <= validators.len(),
            errors_view(errors@) == all_errors(validators_view(validators@), i as nat, instance@),
        decreases validators.len() - i,
    {
        let mut found = validators[i].validate(instance);
        errors.append(&mut found);
        i += 1;
    }
    errors
}

/// Renders a list of constraints: their names in braces, with `", "`
/// between one and the next.
pub fn format_validators(validators: &Validators) -> (text: String)
    ensures
        text@ == validators_name(validators_view(validators@)),
    decreases validators,
{
    let mut text = String::from_str("{");
    assert(text@ =~= "{"@ + names_joined(validators_view(validators@), 0));
    let mut i: usize = 0;
    while i < validators.len()
        invariant
            0 <= i <= validators.len(),
            text@ == "{"@ + names_joined(validators_view(validators@), i as nat),
        decreases validators.len() - i,
    {
        if i > 0 {
            text.append(", ");
        }
        let name = validators[i].name();
        text.append(name.as_str());
        assert(text@ =~= "{"@ + names_joined(validators_view(validators@), (i + 1) as nat));
        i += 1;
    }
    text.append("}");
    text
}

/// Renders a list of entries: for each the property name, a colon and the
/// entry's constraints, with `", "` between one entry and the next.
pub fn format_key_value_validators(entries: &Vec<(String, Validators)>) -> (text: String)
    ensures
        text@ == key_value_names(entries_view(entries@), entries.len() as nat),
    decreases entries,
{
    let mut text = String::new();
    let mut i: usize = 0;
    while i < entries.len()
        invariant
            0 <= i <= entries.len(),
            text@ == key_value_names(entries_view(entries@), i as nat),
        decreases entries.len() - i,
    {
        if i > 0 {
            text.append(", ");
        }
        let ghost separated = text@;
        text.append(entries[i].0.as_str());
        text.append(": ");
        let rendered = format_validators(&entries[i].1);
        text.append(rendered.as_str());
        assert(text@ =~= separated + key_value_name(entries_view(entries@)[i as int]));
        i += 1;
    }
    text
}

} // verus!
