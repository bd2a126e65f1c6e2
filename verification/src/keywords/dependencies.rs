//! The `dependencies` keyword: constraints that apply to a document only
//! where it holds a given property.
//!
//! The keyword's fragment is an object. Under each property name it holds
//! either a list of property names, which then have to be present too, or a
//! schema, which the whole document then has to satisfy.

use crate::compilation::{compile_validators, spec_compile_validators, CompilationContext};
use crate::error::{errors_view, CompilationError, SpecValidationError, ValidationError};
use crate::keywords::agreement::lemma_table_agrees;
use crate::keywords::required::RequiredValidator;
use crate::keywords::{
    all_are_valid, all_errors, all_failures, all_valid, compilation_view, entries_view,
    format_key_value_validators, key_value_names, required, result_view, validators_view,
    CompilationResult, SpecEntries, SpecValidator, Validator, Validators,
};
use crate::value::{SpecValue, Value};
use vstd::prelude::*;

verus! {

/// A compiled table of dependencies: one entry for each property name of
/// the fragment, in the fragment's order, with the constraints that the
/// property brings into force.
#[derive(Debug)]
pub struct DependenciesValidator {
    dependencies: Vec<(String, Validators)>,
}

/// Whether an entry is in force: `instance` is an object that holds the
/// entry's property.
pub open spec fn applies(entry: (Seq<char>, Seq<SpecValidator>), instance: SpecValue) -> bool {
    instance.has_key(entry.0)
}

/// Whether `instance` meets the table: every entry in force has all its
/// constraints met by the whole of `instance`.
pub open spec fn table_is_valid(table: SpecEntries, instance: SpecValue) -> bool
    decreases table,
{
    forall|i: int|
        0 <= i < table.len() && applies(#[trigger] table[i], instance) ==> all_valid(
            table[i].1,
            instance,
        )
}

/// The failures that one entry adds: those of its constraints against the
/// whole of `instance` where the entry is in force, else none.
pub open spec fn entry_errors(
    entry: (Seq<char>, Seq<SpecValidator>),
    instance: SpecValue,
) -> Seq<SpecValidationError>
    decreases entry,
{
    if applies(entry, instance) {
        all_errors(entry.1, entry.1.len(), instance)
    } else {
        Seq::empty()
    }
}

/// The failures that the first `n` entries add, entry by entry and, within
/// an entry, constraint by constraint.
pub open spec fn table_errors(table: SpecEntries, n: nat, instance: SpecValue) -> Seq<
    SpecValidationError,
>
    decreases table, n,
{
    if 0 < n <= table.len() {
        table_errors(table, (n - 1) as nat, instance) + entry_errors(table[n - 1], instance)
    } else {
        Seq::empty()
    }
}

/// What the value under one property name compiles to: a list of names to
/// the one constraint that requires them, anything else as a schema.
pub open spec fn spec_compile_entry(schema: SpecValue, context: CompilationContext) -> Result<
    Seq<SpecValidator>,
    CompilationError,
>
    decreases schema, 1nat,
{
    if schema is Array {
        match required::spec_compile(schema) {
            Ok(validator) => Ok(seq![validator]),
            Err(error) => Err(error),
        }
    } else {
        spec_compile_validators(schema, context)
    }
}

/// The table that the entries of a fragment compile to where each of
/// them compiles: one entry for each, under the same name and in the same
/// order.
pub open spec fn compiled_table(
    entries: Seq<(Seq<char>, SpecValue)>,
    context: CompilationContext,
) -> SpecEntries
    decreases entries,
{
    Seq::new(
        entries.len(),
        |i: int|
            if 0 <= i < entries.len() {
                (entries[i].0, spec_compile_entry(entries[i].1, context)->Ok_0)
            } else {
                (Seq::empty(), Seq::empty())
            },
    )
}

/// What a `dependencies` fragment compiles to. The fragment has to be an
/// object, and every one of its entries has to compile: there is a table
/// for all of them or none at all.
pub open spec fn spec_compile(schema: SpecValue, context: CompilationContext) -> Result<
    SpecValidator,
    CompilationError,
>
    decreases schema, 2nat,
{
    match schema {
        SpecValue::Object(entries) => if forall|i: int|
            0 <= i < entries.len() ==> spec_compile_entry(
                (#[trigger] entries[i]).1,
                context,
            ) is Ok {
            Ok(SpecValidator::Dependencies(compiled_table(entries, context)))
        } else {
            Err(CompilationError::SchemaError)
        },
        _ => Err(CompilationError::SchemaError),
    }
}

impl DependenciesValidator {
    /// The table as mathematical values: property names with the
    /// constraints that each brings into force.
    pub closed spec fn view(&self) -> SpecEntries
        decreases self,
    {
        entries_view(self.dependencies@)
    }

    /// Compiles a `dependencies` fragment. The result is all or nothing:
    /// a fragment that is not an object, or one entry that does not
    /// compile, fails the whole table.
    pub fn compile(schema: &Value, context: &CompilationContext) -> (result: CompilationResult)
        ensures
            result_view(result) == spec_compile(schema@, *context),
            !(schema@ is Object) ==> result == Err::<Validator, CompilationError>(
                CompilationError::SchemaError,
            ),
        decreases schema, 2nat,
    {
        match schema {
            Value::Object(map) => {
                let mut dependencies: Vec<(String, Validators)> = Vec::with_capacity(map.len());
                let mut i: usize = 0;
                while i < map.len()
                    invariant
                        0 <= i <= map.len(),
                        *schema == Value::Object(*map),
                        schema@.entries().len() == map.len(),
                        forall|k: int|
                            0 <= k < map.len() ==> schema@.entries()[k] == (map[k].0@, map[k].1@),
                        dependencies.len() == i,
                        forall|k: int|
                            0 <= k < i ==> spec_compile_entry(
                                (#[trigger] schema@.entries()[k]).1,
                                *context,
                            ) is Ok,
                        forall|k: int|
                            0 <= k < i ==> (#[trigger] entries_view(dependencies@)[k])
                                == compiled_table(schema@.entries(), *context)[k],
                    decreases map.len() - i,
                {
                    let key = &map[i].0;
                    let subschema = &map[i].1;
                    let compiled = match subschema {
                        Value::Array(_) => match RequiredValidator::compile(subschema) {
                            Ok(validator) => {
                                let mut validators: Validators = Vec::new();
                                validators.push(validator);
                                assert(validators_view(validators@) =~= seq![validator@]);
                                Ok(validators)
                            },
                            Err(error) => Err(error),
                        },
                        _ => compile_validators(subschema, context),
                    };
                    match compiled {
                        Ok(validators) => {
                            let ghost before = dependencies@;
                            dependencies.push((key.clone(), validators));
                            assert(entries_view(dependencies@) =~= entries_view(before).push(
                                (key@, validators_view(validators@)),
                            ));
                        },
                        Err(error) => {
                            assert(spec_compile_entry(schema@.entries()[i as int].1, *context)
                                is Err);
                            return Err(error);
                        },
                    }
                    i += 1;
                }
                assert(entries_view(dependencies@) =~= compiled_table(schema@.entries(), *context));
                Ok(Validator::Dependencies(DependenciesValidator { dependencies }))
            },
            _ => Err(CompilationError::SchemaError),
        }
    }

    /// Tells whether `instance` meets the table; stops at the first
    /// constraint in force that it does not meet. A document that is not
    /// an object meets every table.
    pub fn is_valid(&self, instance: &Value) -> (valid: bool)
        ensures
            valid == table_is_valid(self@, instance@),
            !(instance@ is Object) ==> valid,
        decreases self,
    {
        match instance {
            Value::Object(_) => {
                let mut i: usize = 0;
                while i < self.dependencies.len()
                    invariant
                        0 <= i <= self.dependencies.len(),
                        forall|k: int|
                            0 <= k < i && applies(#[trigger] self@[k], instance@) ==> all_valid(
                                self@[k].1,
                                instance@,
                            ),
                    decreases self.dependencies.len() - i,
                {
                    if instance.contains_key(&self.dependencies[i].0) {
                        if !all_are_valid(&self.dependencies[i].1, instance) {
                            assert(applies(self@[i as int], instance@));
                            return false;
                        }
                    }
                    i += 1;
                }
                true
            },
            _ => true,
        }
    }

    /// Reports every failure of `instance` against the table: no entry in
    /// force is skipped, and the failures come entry by entry and, within
    /// an entry, constraint by constraint. A document that is not an
    /// object has no failures.
    ///
    /// An entry made from a list of names fails as the `required` keyword
    /// does: each failure names the property that is missing, not the
    /// property that asked for it.
    pub fn validate(&self, instance: &Value) -> (errors: Vec<ValidationError>)
        ensures
            errors_view(errors@) == table_errors(self@, self@.len(), instance@),
            errors@.len() == 0 <==> table_is_valid(self@, instance@),
            !(instance@ is Object) ==> errors@.len() == 0,
        decreases self,
    {
        proof {
            lemma_modes_agree(self@, instance@);
        }
        let mut errors: Vec<ValidationError> = Vec::new();
        match instance {
            Value::Object(_) => {
                let mut i: usize = 0;
                while i < self.dependencies.len()
                    invariant
                        0 <= i <= self.dependencies.len(),
                        self@.len() == self.dependencies.len(),
                        errors_view(errors@) == table_errors(self@, i as nat, instance@),
                    decreases self.dependencies.len() - i,
                {
                    let ghost before = errors@;
                    if instance.contains_key(&self.dependencies[i].0) {
                        let mut found = all_failures(&self.dependencies[i].1, instance);
                        errors.append(&mut found);
                    }
                    assert(errors_view(errors@) =~= errors_view(before) + entry_errors(
                        self@[i as int],
                        instance@,
                    ));
                    i += 1;
                }
            },
            _ => {
                proof {
                    lemma_other_document_has_no_errors(self@, self@.len(), instance@);
                }
            },
        }
        errors
    }

    /// Describes the table: `dependencies: {` and `}` around the entries,
    /// each as its property name, a colon and its constraints.
    pub fn name(&self) -> (text: String)
        ensures
            text@ == "dependencies: {"@ + key_value_names(self@, self@.len()) + "}"@,
        decreases self,
    {
        let mut text = String::from_str("dependencies: {");
        let entries = format_key_value_validators(&self.dependencies);
        text.append(entries.as_str());
        text.append("}");
        text
    }
}

/// Against a document that is not an object no entry adds a failure.
proof fn lemma_other_document_has_no_errors(table: SpecEntries, n: nat, instance: SpecValue)
    requires
        !(instance is Object),
    ensures
        table_errors(table, n, instance) == Seq::<SpecValidationError>::empty(),
    decreases n,
{
    if 0 < n <= table.len() {
        lemma_other_document_has_no_errors(table, (n - 1) as nat, instance);
        assert(entry_errors(table[n - 1], instance) =~= Seq::<SpecValidationError>::empty());
    }
}

/// Without an entry that is not in force, the first `n` entries of a table
/// add the same failures.
proof fn lemma_errors_without(table: SpecEntries, i: int, n: nat, instance: SpecValue)
    requires
        0 <= i < table.len(),
        !applies(table[i], instance),
        n <= table.len(),
    ensures
        table_errors(table, n, instance) == table_errors(
            table.remove(i),
            if n <= i {
                n
            } else {
                (n - 1) as nat
            },
            instance,
        ),
    decreases n,
{
    if n > 0 {
        lemma_errors_without(table, i, (n - 1) as nat, instance);
        if n - 1 == i {
            assert(entry_errors(table[n - 1], instance) =~= Seq::<SpecValidationError>::empty());
        }
    }
}

/// A document that is not an object meets every table, and no table
/// reports a failure for it.
pub proof fn lemma_other_documents_pass(table: SpecEntries, instance: SpecValue)
    requires
        !(instance is Object),
    ensures
        table_is_valid(table, instance),
        table_errors(table, table.len(), instance) == Seq::<SpecValidationError>::empty(),
{
    lemma_other_document_has_no_errors(table, table.len(), instance);
}

/// The two modes of evaluation agree: a document meets a table exactly
/// where the table reports no failure for it.
pub proof fn lemma_modes_agree(table: SpecEntries, instance: SpecValue)
    ensures
        table_is_valid(table, instance) <==> table_errors(table, table.len(), instance).len()
            == 0,
{
    lemma_table_agrees(table, table.len(), instance);
}

/// An entry whose property the document does not hold counts for nothing,
/// whatever its constraints are: it adds no failure, and the table reports
/// the same failures and gives the same verdict with the entry as without.
pub proof fn lemma_absent_entry_adds_nothing(table: SpecEntries, i: int, instance: SpecValue)
    requires
        0 <= i < table.len(),
        !instance.has_key(table[i].0),
    ensures
        entry_errors(table[i], instance) == Seq::<SpecValidationError>::empty(),
        table_errors(table, table.len(), instance) == table_errors(
            table.remove(i),
            table.remove(i).len(),
            instance,
        ),
        table_is_valid(table, instance) <==> table_is_valid(table.remove(i), instance),
{
    let rest = table.remove(i);
    lemma_errors_without(table, i, table.len(), instance);
    if table_is_valid(rest, instance) {
        assert forall|k: int|
            0 <= k < table.len() && applies(#[trigger] table[k], instance) implies all_valid(
            table[k].1,
            instance,
        ) by {
            if k < i {
                assert(table[k] == rest[k]);
            } else if k > i {
                assert(table[k] == rest[k - 1]);
            }
        }
    }
}

/// Where no entry but the one at `i` is in force, the first `n` entries
/// add what that entry adds, once it is among them.
proof fn lemma_errors_of_single(table: SpecEntries, i: int, n: nat, instance: SpecValue)
    requires
        0 <= i < table.len(),
        forall|k: int| 0 <= k < table.len() && k != i ==> !applies(#[trigger] table[k], instance),
        n <= table.len(),
    ensures
        table_errors(table, n, instance) == if n <= i {
            Seq::<SpecValidationError>::empty()
        } else {
            entry_errors(table[i], instance)
        },
    decreases n,
{
    if n > 0 {
        lemma_errors_of_single(table, i, (n - 1) as nat, instance);
        assert(table_errors(table, n, instance) =~= table_errors(table, (n - 1) as nat, instance)
            + entry_errors(table[n - 1], instance));
    }
}

/// Entries are evaluated independently: where no entry but the one at `i`
/// is in force, that entry alone decides the verdict and adds the
/// failures, whatever the constraints of the other entries are.
pub proof fn lemma_single_entry_decides(table: SpecEntries, i: int, instance: SpecValue)
    requires
        0 <= i < table.len(),
        forall|k: int|
            0 <= k < table.len() && k != i ==> !instance.has_key((#[trigger] table[k]).0),
    ensures
        table_errors(table, table.len(), instance) == entry_errors(table[i], instance),
        table_is_valid(table, instance) <==> (instance.has_key(table[i].0) ==> all_valid(
            table[i].1,
            instance,
        )),
{
    lemma_errors_of_single(table, i, table.len(), instance);
}

/// A list of property names compiles to exactly one constraint: the one
/// that requires those properties.
pub proof fn lemma_list_form_is_one_constraint(schema: SpecValue, context: CompilationContext)
    requires
        schema is Array,
        spec_compile_entry(schema, context) is Ok,
    ensures
        spec_compile_entry(schema, context)->Ok_0.len() == 1,
        spec_compile_entry(schema, context)->Ok_0[0] is Required,
{
}

/// A fragment compiles exactly where it is an object and every one of its
/// entries compiles.
pub proof fn lemma_compiles_where_every_entry_does(schema: SpecValue, context: CompilationContext)
    ensures
        spec_compile(schema, context) is Ok <==> schema is Object && forall|i: int|
            0 <= i < schema.entries().len() ==> spec_compile_entry(
                (#[trigger] schema.entries()[i]).1,
                context,
            ) is Ok,
        spec_compile(schema, context) is Err ==> spec_compile(schema, context) == Err::<
            SpecValidator,
            CompilationError,
        >(CompilationError::SchemaError),
{
}

/// A compiled table follows its fragment: it has one entry for each entry
/// of the fragment, in the same order, under the same name and with what
/// the entry's value compiles to.
pub proof fn lemma_table_follows_fragment(schema: SpecValue, context: CompilationContext)
    requires
        spec_compile(schema, context) is Ok,
    ensures
        schema is Object,
        spec_compile(schema, context)->Ok_0 is Dependencies,
        spec_compile(schema, context)->Ok_0->Dependencies_0.len() == schema.entries().len(),
        forall|i: int|
            0 <= i < schema.entries().len() ==> (#[trigger] spec_compile(
                schema,
                context,
            )->Ok_0->Dependencies_0[i]).0 == schema.entries()[i].0,
        forall|i: int|
            0 <= i < schema.entries().len() ==> spec_compile_entry(
                schema.entries()[i].1,
                context,
            ) == Ok::<Seq<SpecValidator>, CompilationError>(
                (#[trigger] spec_compile(schema, context)->Ok_0->Dependencies_0[i]).1,
            ),
{
}

/// A table compiled from a fragment that names no property twice names no
/// property twice.
pub proof fn lemma_table_names_stay_distinct(schema: SpecValue, context: CompilationContext)
    requires
        spec_compile(schema, context) is Ok,
        forall|i: int, j: int|
            0 <= i < j < schema.entries().len() ==> (#[trigger] schema.entries()[i]).0 != (
            #[trigger] schema.entries()[j]).0,
    ensures
        forall|i: int, j: int|
            0 <= i < j < schema.entries().len() ==> (#[trigger] spec_compile(
                schema,
                context,
            )->Ok_0->Dependencies_0[i]).0 != (#[trigger] spec_compile(
                schema,
                context,
            )->Ok_0->Dependencies_0[j]).0,
{
    let table = spec_compile(schema, context)->Ok_0->Dependencies_0;
}

/// Compiles the `dependencies` keyword of a schema object. The keyword's
/// value is `schema`; the rest of the object has no say in it. There is
/// always a result.
pub fn compile(
    _parent: &Vec<(String, Value)>,
    schema: &Value,
    context: &CompilationContext,
) -> (result: Option<CompilationResult>)
    ensures
        compilation_view(result) == Some(spec_compile(schema@, *context)),
    decreases schema, 3nat,
{
    Some(DependenciesValidator::compile(schema, context))
}

} // verus!
