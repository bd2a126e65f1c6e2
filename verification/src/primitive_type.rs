//! The primitive types that the `type` keyword can name.

use crate::value::{SpecValue, Value};
use vstd::prelude::*;

verus! {

/// One of the seven primitive types of a document value.
#[derive(Clone, Copy, Debug, PartialEq, Eq, Structural)]
pub enum PrimitiveType {
    Array,
    Boolean,
    Integer,
    Null,
    Number,
    Object,
    String,
}

/// Tells whether `text` spells exactly `word`.
pub fn is_word(text: &String, word: &str) -> (same: bool)
    ensures
        same == (text@ == word@),
{
    let expected = String::from_str(word);
    *text == expected
}

impl PrimitiveType {
    /// Whether a value is of this type. Every integer is also a number.
    pub open spec fn accepts(self, instance: SpecValue) -> bool {
        match self {
            PrimitiveType::Array => instance is Array,
            PrimitiveType::Boolean => instance is Bool,
            PrimitiveType::Integer => instance matches SpecValue::Number(n) && n.is_integer(),
            PrimitiveType::Null => instance is Null,
            PrimitiveType::Number => instance is Number,
            PrimitiveType::Object => instance is Object,
            PrimitiveType::String => instance is String,
        }
    }

    /// The word by which a schema names this type.
    pub open spec fn spec_name(self) -> Seq<char> {
        match self {
            PrimitiveType::Array => "array"@,
            PrimitiveType::Boolean => "boolean"@,
            PrimitiveType::Integer => "integer"@,
            PrimitiveType::Null => "null"@,
            PrimitiveType::Number => "number"@,
            PrimitiveType::Object => "object"@,
            PrimitiveType::String => "string"@,
        }
    }

    /// The type that `name` spells, if it spells one.
    pub open spec fn spec_from_name(name: Seq<char>) -> Option<PrimitiveType> {
        if name == "array"@ {
            Some(PrimitiveType::Array)
        } else if name == "boolean"@ {
            Some(PrimitiveType::Boolean)
        } else if name == "integer"@ {
            Some(PrimitiveType::Integer)
        } else if name == "null"@ {
            Some(PrimitiveType::Null)
        } else if name == "number"@ {
            Some(PrimitiveType::Number)
        } else if name == "object"@ {
            Some(PrimitiveType::Object)
        } else if name == "string"@ {
            Some(PrimitiveType::String)
        } else {
            None
        }
    }

    /// Tells whether `instance` is of this type.
    pub fn check(&self, instance: &Value) -> (ok: bool)
        ensures
            ok == self.accepts(instance@),
    {
        match self {
            PrimitiveType::Array => match instance {
                Value::Array(_) => true,
                _ => false,
            },
            PrimitiveType::Boolean => match instance {
                Value::Bool(_) => true,
                _ => false,
            },
            PrimitiveType::Integer => match instance {
                Value::Number(crate::value::Number::PosInt(_)) => true,
                Value::Number(crate::value::Number::NegInt(_)) => true,
                _ => false,
            },
            PrimitiveType::Null => match instance {
                Value::Null => true,
                _ => false,
            },
            PrimitiveType::Number => match instance {
                Value::Number(_) => true,
                _ => false,
            },
            PrimitiveType::Object => match instance {
                Value::Object(_) => true,
                _ => false,
            },
            PrimitiveType::String => match instance {
                Value::String(_) => true,
                _ => false,
            },
        }
    }

    /// Reads a type from the word that names it.
    pub fn from_name(name: &String) -> (found: Option<PrimitiveType>)
        ensures
            found == Self::spec_from_name(name@),
    {
        if is_word(name, "array") {
            Some(PrimitiveType::Array)
        } else if is_word(name, "boolean") {
            Some(PrimitiveType::Boolean)
        } else if is_word(name, "integer") {
            Some(PrimitiveType::Integer)
        } else if is_word(name, "null") {
            Some(PrimitiveType::Null)
        } else if is_word(name, "number") {
            Some(PrimitiveType::Number)
        } else if is_word(name, "object") {
            Some(PrimitiveType::Object)
        } else if is_word(name, "string") {
            Some(PrimitiveType::String)
        } else {
            None
        }
    }

    /// The word that names this type.
    pub fn name(&self) -> (word: String)
        ensures
            word@ == self.spec_name(),
    {
        match self {
            PrimitiveType::Array => String::from_str("array"),
            PrimitiveType::Boolean => String::from_str("boolean"),
            PrimitiveType::Integer => String::from_str("integer"),
            PrimitiveType::Null => String::from_str("null"),
            PrimitiveType::Number => String::from_str("number"),
            PrimitiveType::Object => String::from_str("object"),
            PrimitiveType::String => String::from_str("string"),
        }
    }
}

} // verus!
