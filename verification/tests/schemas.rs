use schema_dependencies::compilation::{
    compile_keyword, compile_validators, CompilationContext, Draft,
};
use schema_dependencies::error::{CompilationError, ValidationError};
use schema_dependencies::keywords::boolean::FalseValidator;
use schema_dependencies::keywords::properties::PropertiesValidator;
use schema_dependencies::keywords::required::RequiredValidator;
use schema_dependencies::keywords::type_::TypeValidator;
use schema_dependencies::keywords::{
    all_are_valid, all_failures, format_key_value_validators, format_validators, Validators,
};
use schema_dependencies::primitive_type::{is_word, PrimitiveType};
use schema_dependencies::value::{Number, Value};

fn value_of(value: &serde_json::Value) -> Value {
    match value {
        serde_json::Value::Null => Value::Null,
        serde_json::Value::Bool(flag) => Value::Bool(*flag),
        serde_json::Value::Number(number) => Value::Number(if let Some(n) = number.as_u64() {
            Number::PosInt(n)
        } else if let Some(n) = number.as_i64() {
            Number::NegInt(n)
        } else {
            Number::Float(number.as_f64().unwrap().to_bits())
        }),
        serde_json::Value::String(text) => Value::String(text.clone()),
        serde_json::Value::Array(items) => Value::Array(items.iter().map(value_of).collect()),
        serde_json::Value::Object(map) => {
            Value::Object(map.iter().map(|(key, value)| (key.clone(), value_of(value))).collect())
        }
    }
}

fn parse(text: &str) -> Value {
    value_of(&serde_json::from_str(text).unwrap())
}

fn context() -> CompilationContext {
    CompilationContext::new(Draft::Draft7)
}

fn validators(schema: &str) -> Validators {
    compile_validators(&parse(schema), &context()).unwrap()
}

fn entry(key: &str, value: Value) -> (String, Value) {
    (key.to_string(), value)
}

#[test]
fn numbers_keep_the_form_they_were_written_in() {
    assert_eq!(parse("0"), Value::Number(Number::PosInt(0)));
    assert_eq!(parse("18446744073709551615"), Value::Number(Number::PosInt(u64::MAX)));
    assert_eq!(parse("-1"), Value::Number(Number::NegInt(-1)));
    assert_eq!(parse("1.5"), Value::Number(Number::Float(1.5f64.to_bits())));
}

#[test]
fn objects_find_their_keys() {
    let object = parse(r#"{"a": 1, "b": null}"#);
    assert!(object.contains_key(&"a".to_string()));
    assert!(object.contains_key(&"b".to_string()));
    assert!(!object.contains_key(&"c".to_string()));
    assert!(!object.contains_key(&"".to_string()));
    assert_eq!(object.get(&"a".to_string()), Some(&Value::Number(Number::PosInt(1))));
    assert_eq!(object.get(&"b".to_string()), Some(&Value::Null));
    assert_eq!(object.get(&"c".to_string()), None);
}

#[test]
fn other_values_hold_no_keys() {
    for text in ["null", "true", "1", "\"a\"", "[\"a\"]", "[{\"a\": 1}]"] {
        let value = parse(text);
        assert!(!value.contains_key(&"a".to_string()), "{}", text);
        assert_eq!(value.get(&"a".to_string()), None, "{}", text);
    }
}

#[test]
fn the_first_of_two_equal_keys_is_found() {
    let object = Value::Object(vec![
        entry("a", Value::Bool(true)),
        entry("b", Value::Null),
        entry("a", Value::Bool(false)),
    ]);
    assert!(object.contains_key(&"a".to_string()));
    assert_eq!(object.get(&"a".to_string()), Some(&Value::Bool(true)));
    assert_eq!(object.get(&"b".to_string()), Some(&Value::Null));
}

#[test]
fn words_are_compared_whole() {
    assert!(is_word(&"type".to_string(), "type"));
    assert!(!is_word(&"types".to_string(), "type"));
    assert!(!is_word(&"typ".to_string(), "type"));
    assert!(!is_word(&"Type".to_string(), "type"));
    assert!(is_word(&"".to_string(), ""));
}

#[test]
fn primitive_types_have_names() {
    let named = [
        (PrimitiveType::Array, "array"),
        (PrimitiveType::Boolean, "boolean"),
        (PrimitiveType::Integer, "integer"),
        (PrimitiveType::Null, "null"),
        (PrimitiveType::Number, "number"),
        (PrimitiveType::Object, "object"),
        (PrimitiveType::String, "string"),
    ];
    for (primitive, name) in named {
        assert_eq!(primitive.name(), name);
        assert_eq!(PrimitiveType::from_name(&name.to_string()), Some(primitive));
    }
    for name in ["", "int", "Integer", "integer ", "float", "any"] {
        assert_eq!(PrimitiveType::from_name(&name.to_string()), None, "{}", name);
    }
}

#[test]
fn primitive_types_accept_their_values() {
    let values = ["[]", "true", "3", "-3", "null", "1.5", "{}", "\"s\""];
    let expected = [
        (PrimitiveType::Array, [true, false, false, false, false, false, false, false]),
        (PrimitiveType::Boolean, [false, true, false, false, false, false, false, false]),
        (PrimitiveType::Integer, [false, false, true, true, false, false, false, false]),
        (PrimitiveType::Null, [false, false, false, false, true, false, false, false]),
        (PrimitiveType::Number, [false, false, true, true, false, true, false, false]),
        (PrimitiveType::Object, [false, false, false, false, false, false, true, false]),
        (PrimitiveType::String, [false, false, false, false, false, false, false, true]),
    ];
    for (primitive, row) in expected {
        for (text, accepted) in values.iter().zip(row) {
            assert_eq!(primitive.check(&parse(text)), accepted, "{:?} {}", primitive, text);
        }
    }
}

#[test]
fn type_keyword_compiles_from_a_type_name() {
    let validator = TypeValidator::compile(&parse("\"integer\"")).unwrap();
    assert_eq!(validator.name(), "type: integer");
    assert!(validator.is_valid(&parse("7")));
    assert_eq!(validator.validate(&parse("7")), vec![]);
    assert!(!validator.is_valid(&parse("7.5")));
    assert_eq!(
        validator.validate(&parse("7.5")),
        vec![ValidationError::Type { expected: PrimitiveType::Integer }]
    );
    for fragment in ["\"integers\"", "3", "null", "[\"integer\"]", "{}"] {
        let result = TypeValidator::compile(&parse(fragment));
        assert!(matches!(result, Err(CompilationError::SchemaError)), "{}", fragment);
    }
}

#[test]
fn required_keyword_compiles_from_a_list_of_names() {
    let validator = RequiredValidator::compile(&parse(r#"["a", "b"]"#)).unwrap();
    assert_eq!(validator.name(), "required: [a, b]");
    assert!(validator.is_valid(&parse(r#"{"a": 1, "b": 2, "c": 3}"#)));
    assert!(!validator.is_valid(&parse(r#"{"b": 2}"#)));
    assert_eq!(
        validator.validate(&parse(r#"{"b": 2}"#)),
        vec![ValidationError::Required { property: "a".to_string() }]
    );
    assert_eq!(
        validator.validate(&parse("{}")),
        vec![
            ValidationError::Required { property: "a".to_string() },
            ValidationError::Required { property: "b".to_string() },
        ]
    );
    for text in ["null", "1", "\"a\"", "[]"] {
        assert!(validator.is_valid(&parse(text)), "{}", text);
        assert_eq!(validator.validate(&parse(text)), vec![], "{}", text);
    }
}

#[test]
fn required_keyword_names_its_properties() {
    assert_eq!(RequiredValidator::compile(&parse("[]")).unwrap().name(), "required: []");
    assert_eq!(RequiredValidator::compile(&parse(r#"["a"]"#)).unwrap().name(), "required: [a]");
    assert_eq!(
        RequiredValidator::compile(&parse(r#"["a", "b", "c"]"#)).unwrap().name(),
        "required: [a, b, c]"
    );
}

#[test]
fn required_keyword_refuses_what_is_no_list_of_names() {
    for fragment in ["{}", "\"a\"", "1", "null", "true", "[1]", "[\"a\", null]", "[[\"a\"]]"] {
        let result = RequiredValidator::compile(&parse(fragment));
        assert!(matches!(result, Err(CompilationError::SchemaError)), "{}", fragment);
    }
}

#[test]
fn properties_keyword_constrains_the_values_it_names() {
    let schema = parse(r#"{"a": {"type": "string"}, "b": {"required": ["c"]}}"#);
    let validator = PropertiesValidator::compile(&schema, &context()).unwrap();
    assert_eq!(validator.name(), "properties: {a: {type: string}, b: {required: [c]}}");
    assert!(validator.is_valid(&parse(r#"{"a": "x", "b": {"c": 1}}"#)));
    assert!(validator.is_valid(&parse(r#"{"z": 1}"#)));
    assert!(validator.is_valid(&parse("[1]")));
    let instance = parse(r#"{"b": {}, "a": 1}"#);
    assert!(!validator.is_valid(&instance));
    assert_eq!(
        validator.validate(&instance),
        vec![
            ValidationError::Type { expected: PrimitiveType::String },
            ValidationError::Required { property: "c".to_string() },
        ]
    );
    for fragment in ["[]", "1", r#"{"a": 1}"#, r#"{"a": {"type": 1}}"#] {
        let result = PropertiesValidator::compile(&parse(fragment), &context());
        assert!(matches!(result, Err(CompilationError::SchemaError)), "{}", fragment);
    }
}

#[test]
fn false_schema_accepts_nothing() {
    let validator = FalseValidator::compile();
    assert_eq!(validator.name(), "false");
    for text in ["null", "{}", "[]", "1"] {
        assert!(!validator.is_valid(&parse(text)));
        assert_eq!(validator.validate(&parse(text)), vec![ValidationError::FalseSchema]);
    }
}

#[test]
fn schemas_compile_keyword_by_keyword() {
    let compiled = validators(r#"{"type": "object", "required": ["a"], "properties": {"a": {}}}"#);
    let names: Vec<String> = compiled.iter().map(|validator| validator.name()).collect();
    assert_eq!(names, vec!["properties: {a: {}}", "required: [a]", "type: object"]);
    assert_eq!(format_validators(&compiled), "{properties: {a: {}}, required: [a], type: object}");
    assert!(validators("{}").is_empty());
    assert!(validators("true").is_empty());
    assert_eq!(format_validators(&validators("{}")), "{}");
    assert_eq!(format_validators(&validators("false")), "{false}");
}

#[test]
fn schemas_are_objects_or_booleans() {
    for schema in ["null", "1", "\"a\"", "[]", "[{}]"] {
        let result = compile_validators(&parse(schema), &context());
        assert!(matches!(result, Err(CompilationError::SchemaError)), "{}", schema);
    }
    for schema in ["true", "false"] {
        let result = compile_validators(&parse(schema), &CompilationContext::new(Draft::Draft4));
        assert!(matches!(result, Err(CompilationError::SchemaError)), "{}", schema);
        let result = compile_validators(&parse(schema), &CompilationContext::new(Draft::Draft6));
        assert!(result.is_ok(), "{}", schema);
    }
}

#[test]
fn one_bad_keyword_fails_the_schema() {
    for schema in [
        r#"{"type": "object", "required": 1}"#,
        r#"{"required": ["a"], "type": []}"#,
        r#"{"properties": {"a": 3}}"#,
        r#"{"dependencies": []}"#,
    ] {
        let result = compile_validators(&parse(schema), &context());
        assert!(matches!(result, Err(CompilationError::SchemaError)), "{}", schema);
    }
}

#[test]
fn keywords_are_told_apart_by_name() {
    let parent = Vec::new();
    let names = parse(r#"["a"]"#);
    let required = compile_keyword(&"required".to_string(), &parent, &names, &context());
    assert_eq!(required.unwrap().unwrap().name(), "required: [a]");
    let kind = compile_keyword(&"type".to_string(), &parent, &parse("\"null\""), &context());
    assert_eq!(kind.unwrap().unwrap().name(), "type: null");
    let properties = compile_keyword(&"properties".to_string(), &parent, &parse("{}"), &context());
    assert_eq!(properties.unwrap().unwrap().name(), "properties: {}");
    let table = compile_keyword(&"dependencies".to_string(), &parent, &parse("{}"), &context());
    assert_eq!(table.unwrap().unwrap().name(), "dependencies: {}");
    let failed = compile_keyword(&"type".to_string(), &parent, &names, &context());
    assert!(matches!(failed, Some(Err(CompilationError::SchemaError))));
    for keyword in ["", "title", "Required", "dependency", "$ref"] {
        assert!(compile_keyword(&keyword.to_string(), &parent, &names, &context()).is_none());
    }
}

#[test]
fn lists_of_constraints_are_checked_in_order() {
    let compiled = validators(r#"{"required": ["a"], "type": "array"}"#);
    assert!(!all_are_valid(&compiled, &parse("{}")));
    assert_eq!(
        all_failures(&compiled, &parse("{}")),
        vec![
            ValidationError::Required { property: "a".to_string() },
            ValidationError::Type { expected: PrimitiveType::Array },
        ]
    );
    assert!(all_are_valid(&compiled, &parse("[]")));
    assert_eq!(all_failures(&compiled, &parse("[]")), vec![]);
    assert!(all_are_valid(&Vec::new(), &parse("{}")));
    assert_eq!(all_failures(&Vec::new(), &parse("{}")), vec![]);
}

#[test]
fn entries_render_with_their_names() {
    let entries = vec![
        ("a".to_string(), validators(r#"{"type": "null"}"#)),
        ("b".to_string(), validators("{}")),
        ("c".to_string(), validators(r#"{"required": ["x", "y"], "type": "object"}"#)),
    ];
    assert_eq!(
        format_key_value_validators(&entries),
        "a: {type: null}, b: {}, c: {required: [x, y], type: object}"
    );
    assert_eq!(format_key_value_validators(&Vec::new()), "");
}
