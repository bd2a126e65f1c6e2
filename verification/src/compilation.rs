//! Compiling a schema into constraints.

use crate::error::CompilationError;
use crate::keywords::{
    compilation_view, dependencies, properties, required, type_, validators_view,
    CompilationResult, SpecCompilation, SpecValidator, Validator, Validators,
};
use crate::keywords::boolean::FalseValidator;
use crate::primitive_type::is_word;
use crate::value::{SpecValue, Value};
use vstd::prelude::*;

verus! {

/// The edition of the schema language that a schema is written in.
#[derive(Clone, Copy, Debug, PartialEq, Eq, Structural)]
pub enum Draft {
    Draft4,
    Draft6,
    Draft7,
}

/// What every step of a compilation has to know. The same context goes
/// to every nested schema.
#[derive(Clone, Copy, Debug, PartialEq, Eq, Structural)]
pub struct CompilationContext {
    pub draft: Draft,
}

impl CompilationContext {
    /// Whether `true` and `false` are schemas: they are from the sixth
    /// draft on.
    pub open spec fn allows_boolean_schemas(self) -> bool {
        !(self.draft is Draft4)
    }

    /// A context for schemas written in `draft`.
    pub fn new(draft: Draft) -> (context: CompilationContext)
        ensures
            context.draft == draft,
    {
        CompilationContext { draft }
    }
}

/// What one keyword of a schema object compiles to. A keyword that is
/// not known adds no constraint.
pub open spec fn spec_compile_keyword(
    keyword: Seq<char>,
    schema: SpecValue,
    context: CompilationContext,
) -> SpecCompilation
    decreases schema, 3nat,
{
    if keyword == "dependencies"@ {
        Some(dependencies::spec_compile(schema, context))
    } else if keyword == "properties"@ {
        Some(properties::spec_compile(schema, context))
    } else if keyword == "required"@ {
        Some(required::spec_compile(schema))
    } else if keyword == "type"@ {
        Some(type_::spec_compile(schema))
    } else {
        None
    }
}

/// What the first `n` keywords of a schema object compile to: their
/// constraints in order, or the failure of the first keyword that fails.
pub open spec fn spec_compile_keywords(
    entries: Seq<(Seq<char>, SpecValue)>,
    n: nat,
    context: CompilationContext,
) -> Result<Seq<SpecValidator>, CompilationError>
    decreases entries, n,
{
    if 0 < n <= entries.len() {
        match spec_compile_keywords(entries, (n - 1) as nat, context) {
            Err(error) => Err(error),
            Ok(validators) => match spec_compile_keyword(
                entries[n - 1].0,
                entries[n - 1].1,
                context,
            ) {
                None => Ok(validators),
                Some(Err(error)) => Err(error),
                Some(Ok(validator)) => Ok(validators.push(validator)),
            },
        }
    } else {
        Ok(Seq::empty())
    }
}

/// What a schema compiles to. An object compiles keyword by keyword. Where
/// the draft has them, `true` compiles to no constraint and `false` to the
/// one that nothing meets. Nothing else is a schema.
pub open spec fn spec_compile_validators(schema: SpecValue, context: CompilationContext) -> Result<
    Seq<SpecValidator>,
    CompilationError,
>
    decreases schema, 0nat,
{
    match schema {
        SpecValue::Bool(accepts) => if !context.allows_boolean_schemas() {
            Err(CompilationError::SchemaError)
        } else if accepts {
            Ok(Seq::empty())
        } else {
            Ok(seq![SpecValidator::False])
        },
        SpecValue::Object(entries) => spec_compile_keywords(entries, entries.len(), context),
        _ => Err(CompilationError::SchemaError),
    }
}

/// The mathematical value of what compiling a schema gave.
pub open spec fn validators_result_view(result: Result<Validators, CompilationError>) -> Result<
    Seq<SpecValidator>,
    CompilationError,
> {
    match result {
        Ok(validators) => Ok(validators_view(validators@)),
        Err(error) => Err(error),
    }
}

/// Once a keyword has failed, the schema object fails.
proof fn lemma_keyword_failure_lasts(
    entries: Seq<(Seq<char>, SpecValue)>,
    m: nat,
    n: nat,
    context: CompilationContext,
)
    requires
        m <= n <= entries.len(),
        spec_compile_keywords(entries, m, context) is Err,
    ensures
        spec_compile_keywords(entries, n, context) is Err,
    decreases n,
{
    if m < n {
        lemma_keyword_failure_lasts(entries, m, (n - 1) as nat, context);
    }
}

/// Compiles one keyword of the schema object `parent`, whose value is
/// `schema`.
pub fn compile_keyword(
    keyword: &String,
    parent: &Vec<(String, Value)>,
    schema: &Value,
    context: &CompilationContext,
) -> (result: Option<CompilationResult>)
    ensures
        compilation_view(result) == spec_compile_keyword(keyword@, schema@, *context),
    decreases schema, 4nat,
{
    if is_word(keyword, "dependencies") {
        dependencies::compile(parent, schema, context)
    } else if is_word(keyword, "properties") {
        properties::compile(parent, schema, context)
    } else if is_word(keyword, "required") {
        required::compile(parent, schema, context)
    } else if is_word(keyword, "type") {
        type_::compile(parent, schema, context)
    } else {
        None
    }
}

/// Compiles a schema into its constraints, in the order of its keywords.
/// The first keyword that fails to compile fails the whole schema.
pub fn compile_validators(schema: &Value, context: &CompilationContext) -> (result: Result<
    Validators,
    CompilationError,
>)
    ensures
        validators_result_view(result) == spec_compile_validators(schema@, *context),
    decreases schema, 0nat,
{
    match schema {
        Value::Bool(accepts) => {
            if let Draft::Draft4 = context.draft {
                Err(CompilationError::SchemaError)
            } else {
                let mut validators: Validators = Vec::new();
                if *accepts {
                    assert(validators_view(validators@) =~= Seq::empty());
                } else {
                    validators.push(Validator::False(FalseValidator::compile()));
                    assert(validators_view(validators@) =~= seq![SpecValidator::False]);
                }
                Ok(validators)
            }
        },
        Value::Object(object) => {
            let mut validators: Validators = Vec::with_capacity(object.len());
            assert(validators_view(validators@) =~= Seq::empty());
            let mut i: usize = 0;
            while i < object.len()
                invariant
                    0 <= i <= object.len(),
                    *schema == Value::Object(*object),
                    schema@.entries().len() == object.len(),
                    forall|k: int|
                        0 <= k < object.len() ==> schema@.entries()[k] == (
                            object[k].0@,
                            object[k].1@,
                        ),
                    spec_compile_keywords(schema@.entries(), i as nat, *context) == Ok::<
                        Seq<SpecValidator>,
                        CompilationError,
                    >(validators_view(validators@)),
                decreases object.len() - i,
            {
                let ghost before = validators@;
                match compile_keyword(&object[i].0, object, &object[i].1, context) {
                    None => {},
                    Some(Err(error)) => {
                        proof {
                            lemma_keyword_failure_lasts(
                                schema@.entries(),
                                (i + 1) as nat,
                                object.len() as nat,
                                *context,
                            );
                        }
                        return Err(error);
                    },
                    Some(Ok(validator)) => {
                        validators.push(validator);
                        assert(validators_view(validators@) =~= validators_view(before).push(
                            validator@,
                        ));
                    },
                }
                i += 1;
            }
            Ok(validators)
        },
        _ => Err(CompilationError::SchemaError),
    }
}

} // verus!
