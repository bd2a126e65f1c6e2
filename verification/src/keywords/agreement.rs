//! The two modes of evaluation agree: a constraint is met by a document
//! exactly where it reports no failure for it.

use crate::keywords::dependencies::{applies, entry_errors, table_errors};
use crate::keywords::properties::{properties_errors, property_errors, property_is_valid};
use crate::keywords::required::missing;
use crate::keywords::{all_errors, all_valid, SpecEntries, SpecValidator};
use crate::value::SpecValue;
use vstd::prelude::*;

verus! {

/// No failure is reported for the first `n` names exactly where the
/// document is no object or holds each of them.
pub proof fn lemma_required_agrees(names: Seq<Seq<char>>, n: nat, instance: SpecValue)
    requires
        n <= names.len(),
    ensures
        missing(names, n, instance).len() == 0 <==> (instance is Object ==> forall|i: int|
            0 <= i < n ==> instance.has_key(#[trigger] names[i])),
    decreases n,
{
    if n > 0 {
        lemma_required_agrees(names, (n - 1) as nat, instance);
    }
}

/// A constraint is met exactly where it reports no failure.
pub proof fn lemma_validator_agrees(validator: SpecValidator, instance: SpecValue)
    ensures
        validator.is_valid(instance) <==> validator.validate(instance).len() == 0,
    decreases validator,
{
    match validator {
        SpecValidator::Dependencies(table) => {
            lemma_table_agrees(table, table.len(), instance);
        },
        SpecValidator::False => {},
        SpecValidator::Properties(properties) => {
            lemma_properties_agree(properties, properties.len(), instance);
        },
        SpecValidator::Required(names) => {
            lemma_required_agrees(names, names.len(), instance);
        },
        SpecValidator::Type(_) => {},
    }
}

/// The first `n` constraints of a list report no failure exactly where
/// each of them is met.
pub proof fn lemma_validators_agree(validators: Seq<SpecValidator>, n: nat, instance: SpecValue)
    requires
        n <= validators.len(),
    ensures
        all_errors(validators, n, instance).len() == 0 <==> forall|i: int|
            0 <= i < n ==> (#[trigger] validators[i]).is_valid(instance),
    decreases validators, n,
{
    if n > 0 {
        lemma_validators_agree(validators, (n - 1) as nat, instance);
        lemma_validator_agrees(validators[n - 1], instance);
    }
}

/// The first `n` entries of a table add no failure exactly where every
/// one of them that is in force has all its constraints met.
pub proof fn lemma_table_agrees(table: SpecEntries, n: nat, instance: SpecValue)
    requires
        n <= table.len(),
    ensures
        table_errors(table, n, instance).len() == 0 <==> forall|i: int|
            0 <= i < n && applies(#[trigger] table[i], instance) ==> all_valid(
                table[i].1,
                instance,
            ),
    decreases table, n,
{
    if n > 0 {
        let entry = table[n - 1];
        lemma_table_agrees(table, (n - 1) as nat, instance);
        lemma_validators_agree(entry.1, entry.1.len(), instance);
        assert(table_errors(table, n, instance).len() == table_errors(
            table,
            (n - 1) as nat,
            instance,
        ).len() + entry_errors(entry, instance).len());
    }
}

/// The first `n` entries of a `properties` constraint report no failure
/// exactly where each of them is met.
pub proof fn lemma_properties_agree(properties: SpecEntries, n: nat, instance: SpecValue)
    requires
        n <= properties.len(),
    ensures
        properties_errors(properties, n, instance).len() == 0 <==> forall|i: int|
            0 <= i < n ==> property_is_valid(#[trigger] properties[i], instance),
    decreases properties, n,
{
    if n > 0 {
        let entry = properties[n - 1];
        lemma_properties_agree(properties, (n - 1) as nat, instance);
        match instance.get(entry.0) {
            Some(value) => {
                lemma_validators_agree(entry.1, entry.1.len(), value);
            },
            None => {},
        }
        assert(property_is_valid(entry, instance) <==> property_errors(entry, instance).len()
            == 0);
    }
}

} // verus!
