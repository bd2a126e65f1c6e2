//! The `properties` keyword: constraints on the values that an object
//! holds under given property names.

use crate::compilation::{compile_validators, spec_compile_validators, CompilationContext};
use crate::error::{errors_view, CompilationError, SpecValidationError, ValidationError};
use crate::keywords::{
    all_are_valid, all_errors, all_failures, all_valid, compilation_view, entries_view,
    format_key_value_validators, key_value_names, result_view, validators_view,
    CompilationResult, SpecEntries, SpecValidator, Validator, Validators,
};
use crate::value::{SpecValue, Value};
use vstd::prelude::*;

verus! {

/// Compiled schemas for the values of named properties, in the order of
/// the fragment.
#[derive(Debug)]
pub struct PropertiesValidator {
    properties: Vec<(String, Validators)>,
}

/// Whether the value that `instance` holds under the entry's property, if
/// it holds one, meets the entry's constraints.
pub open spec fn property_is_valid(
    entry: (Seq<char>, Seq<SpecValidator>),
    instance: SpecValue,
) -> bool
    decreases entry,
{
    match instance.get(entry.0) {
        Some(value) => all_valid(entry.1, value),
        None => true,
    }
}

/// Whether every property of `instance` that has an entry meets it.
pub open spec fn properties_are_valid(properties: SpecEntries, instance: SpecValue) -> bool
    decreases properties,
{
    forall|i: int|
        0 <= i < properties.len() ==> property_is_valid(#[trigger] properties[i], instance)
}

/// The failures of the value that `instance` holds under the entry's
/// property; none where it holds no such property.
pub open spec fn property_errors(
    entry: (Seq<char>, Seq<SpecValidator>),
    instance: SpecValue,
) -> Seq<SpecValidationError>
    decreases entry,
{
    match instance.get(entry.0) {
        Some(value) => all_errors(entry.1, entry.1.len(), value),
        None => Seq::empty(),
    }
}

/// The failures under the first `n` entries, entry by entry.
pub open spec fn properties_errors(properties: SpecEntries, n: nat, instance: SpecValue) -> Seq<
    SpecValidationError,
>
    decreases properties, n,
{
    if 0 < n <= properties.len() {
        properties_errors(properties, (n - 1) as nat, instance) + property_errors(
            properties[n - 1],
            instance,
        )
    } else {
        Seq::empty()
    }
}

/// The entries that the schemas of a fragment compile to where each of
/// them compiles: one entry for each, under the same name and in the same
/// order.
pub open spec fn compiled_properties(
    entries: Seq<(Seq<char>, SpecValue)>,
    context: CompilationContext,
) -> SpecEntries
    decreases entries,
{
    Seq::new(
        entries.len(),
        |i: int|
            if 0 <= i < entries.len() {
                (entries[i].0, spec_compile_validators(entries[i].1, context)->Ok_0)
            } else {
                (Seq::empty(), Seq::empty())
            },
    )
}

/// What a `properties` fragment compiles to: the fragment has to be an
/// object, and every schema in it has to compile.
pub open spec fn spec_compile(schema: SpecValue, context: CompilationContext) -> Result<
    SpecValidator,
    CompilationError,
>
    decreases schema, 2nat,
{
    match schema {
        SpecValue::Object(entries) => if forall|i: int|
            0 <= i < entries.len() ==> spec_compile_validators(
                (#[trigger] entries[i]).1,
                context,
            ) is Ok {
            Ok(SpecValidator::Properties(compiled_properties(entries, context)))
        } else {
            Err(CompilationError::SchemaError)
        },
        _ => Err(CompilationError::SchemaError),
    }
}

impl PropertiesValidator {
    /// The entries as mathematical values: property names with the
    /// constraints on their values.
    pub closed spec fn view(&self) -> SpecEntries
        decreases self,
    {
        entries_view(self.properties@)
    }

    /// Compiles a `properties` fragment.
    pub fn compile(schema: &Value, context: &CompilationContext) -> (result: CompilationResult)
        ensures
            result_view(result) == spec_compile(schema@, *context),
        decreases schema, 2nat,
    {
        match schema {
            Value::Object(map) => {
                let mut properties: Vec<(String, Validators)> = Vec::with_capacity(map.len());
                let mut i: usize = 0;
                while i < map.len()
                    invariant
                        0 <= i <= map.len(),
                        *schema == Value::Object(*map),
                        schema@.entries().len() == map.len(),
                        forall|k: int|
                            0 <= k < map.len() ==> schema@.entries()[k] == (map[k].0@, map[k].1@),
                        properties.len() == i,
                        forall|k: int|
                            0 <= k < i ==> spec_compile_validators(
                                (#[trigger] schema@.entries()[k]).1,
                                *context,
                            ) is Ok,
                        forall|k: int|
                            0 <= k < i ==> (#[trigger] entries_view(properties@)[k])
                                == compiled_properties(schema@.entries(), *context)[k],
                    decreases map.len() - i,
                {
                    match compile_validators(&map[i].1, context) {
                        Ok(validators) => {
                            let ghost before = properties@;
                            properties.push((map[i].0.clone(), validators));
                            assert(entries_view(properties@) =~= entries_view(before).push(
                                (map[i as int].0@, validators_view(validators@)),
                            ));
                        },
                        Err(error) => {
                            assert(spec_compile_validators(
                                schema@.entries()[i as int].1,
                                *context,
                            ) is Err);
                            return Err(error);
                        },
                    }
                    i += 1;
                }
                assert(entries_view(properties@) =~= compiled_properties(
                    schema@.entries(),
                    *context,
                ));
                Ok(Validator::Properties(PropertiesValidator { properties }))
            },
            _ => Err(CompilationError::SchemaError),
        }
    }

    /// Tells whether every property of `instance` that has an entry meets
    /// it; stops at the first constraint that is not met.
    pub fn is_valid(&self, instance: &Value) -> (valid: bool)
        ensures
            valid == properties_are_valid(self@, instance@),
        decreases self,
    {
        let mut i: usize = 0;
        while i < self.properties.len()
            invariant
                0 <= i <= self.properties.len(),
                forall|k: int| 0 <= k < i ==> property_is_valid(#[trigger] self@[k], instance@),
            decreases self.properties.len() - i,
        {
            match instance.get(&self.properties[i].0) {
                Some(value) => {
                    if !all_are_valid(&self.properties[i].1, value) {
                        assert(!property_is_valid(self@[i as int], instance@));
                        return false;
                    }
                },
                None => {},
            }
            i += 1;
        }
        true
    }

    /// Reports the failures of the values of `instance` under the
    /// properties that have an entry, entry by entry.
    pub fn validate(&self, instance: &Value) -> (errors: Vec<ValidationError>)
        ensures
            errors_view(errors@) == properties_errors(self@, self@.len(), instance@),
        decreases self,
    {
        let mut errors: Vec<ValidationError> = Vec::new();
        let mut i: usize = 0;
        while i < self.properties.len()
            invariant
                0 <= i <= self.properties.len(),
                self@.len() == self.properties.len(),
                errors_view(errors@) == properties_errors(self@, i as nat, instance@),
            decreases self.properties.len() - i,
        {
            let ghost before = errors@;
            match instance.get(&self.properties[i].0) {
                Some(value) => {
                    let mut found = all_failures(&self.properties[i].1, value);
                    errors.append(&mut found);
                },
                None => {},
            }
            assert(errors_view(errors@) =~= errors_view(before) + property_errors(
                self@[i as int],
                instance@,
            ));
            i += 1;
        }
        errors
    }

    /// Describes the constraint: `properties: {` and `}` around the
    /// entries, each as its property name, a colon and its constraints.
    pub fn name(&self) -> (text: String)
        ensures
            text@ == "properties: {"@ + key_value_names(self@, self@.len()) + "}"@,
        decreases self,
    {
        let mut text = String::from_str("properties: {");
        let entries = format_key_value_validators(&self.properties);
        text.append(entries.as_str());
        text.append("}");
        text
    }
}

/// Compiles the `properties` keyword of a schema object. The keyword's
/// value is `schema`; the rest of the object has no say in it.
pub fn compile(
    _parent: &Vec<(String, Value)>,
    schema: &Value,
    context: &CompilationContext,
) -> (result: Option<CompilationResult>)
    ensures
        compilation_view(result) == Some(spec_compile(schema@, *context)),
    decreases schema, 3nat,
{
    Some(PropertiesValidator::compile(schema, context))
}

} // verus!
