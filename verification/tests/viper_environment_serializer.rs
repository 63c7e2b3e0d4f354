use sftpgo_operator::crds::value::{Field, Value};
use sftpgo_operator::crds::viper_environment_serializer::{
    Error, ViperEnvironmentSerializer, ViperEnvironmentSerializerStackElement,
};

fn field(name: &str, value: Value) -> Field {
    Field { name: name.to_string(), value }
}

fn text(s: &str) -> Value {
    Value::Str(s.to_string())
}

fn some(value: Value) -> Value {
    Value::Present(Box::new(value))
}

fn variant(tag: &str) -> Value {
    Value::UnitVariant(tag.to_string())
}

#[test]
fn simple_values() {
    let mut serializer = ViperEnvironmentSerializer::new();
    let value = Value::Record(vec![
        field("name", text("John")),
        field("age", Value::UInt(32)),
        field("is_active", Value::Bool(true)),
        field("optional", some(text("a value"))),
        field("optional2", Value::Absent),
        field("an_enum", variant("Second")),
    ]);
    serializer.serialize(&value).unwrap();
    assert_eq!(
        serializer.values,
        vec![
            "NAME=John".to_string(),
            "AGE=32".to_string(),
            "IS_ACTIVE=true".to_string(),
            "OPTIONAL=a value".to_string(),
            "AN_ENUM=Second".to_string(),
        ]
    );
}

#[test]
fn string_list() {
    let mut serializer = ViperEnvironmentSerializer::new();
    let value = Value::Record(vec![field(
        "string_list",
        Value::Sequence(vec![text("a"), text("b")]),
    )]);
    serializer.serialize(&value).unwrap();
    assert_eq!(
        serializer.values,
        vec![
            "STRING_LIST__0=a".to_string(),
            "STRING_LIST__1=b".to_string(),
        ]
    );
}

#[test]
fn nested_object() {
    let mut serializer = ViperEnvironmentSerializer::new();
    let value = Value::Record(vec![field(
        "nested",
        Value::Record(vec![field("something", Value::Int(42))]),
    )]);
    serializer.serialize(&value).unwrap();
    assert_eq!(serializer.values, vec!["NESTED__SOMETHING=42".to_string(),]);
}

#[test]
fn nested_list_objects() {
    let mut serializer = ViperEnvironmentSerializer::new();
    let value = Value::Record(vec![field(
        "nested_list",
        Value::Sequence(vec![
            Value::Record(vec![field("something", Value::Int(1))]),
            Value::Record(vec![field("something", Value::Int(2))]),
        ]),
    )]);
    serializer.serialize(&value).unwrap();
    assert_eq!(
        serializer.values,
        vec![
            "NESTED_LIST__0__SOMETHING=1".to_string(),
            "NESTED_LIST__1__SOMETHING=2".to_string(),
        ]
    );
}

#[test]
fn all_together() {
    let pi: f32 = std::f32::consts::PI;
    let mut serializer = ViperEnvironmentSerializer::new();
    let value = Value::Record(vec![
        field("name", text("John")),
        field("age", Value::UInt(32)),
        field("is_active", Value::Bool(true)),
        field("optional", some(text("a value"))),
        field("optional2", Value::Absent),
        field("an_enum", variant("Second")),
        field("string_list", Value::Sequence(vec![text("a"), text("b")])),
        field(
            "nested",
            Value::Record(vec![field("something", Value::Int(42))]),
        ),
        field(
            "nested_list",
            Value::Sequence(vec![
                Value::Record(vec![field("something", Value::Int(1))]),
                Value::Record(vec![field("something", Value::Int(2))]),
            ]),
        ),
        field("something_else", some(Value::Str(format!("{}", pi)))),
    ]);
    serializer.serialize(&value).unwrap();
    assert_eq!(
        serializer.values,
        vec![
            "NAME=John".to_string(),
            "AGE=32".to_string(),
            "IS_ACTIVE=true".to_string(),
            "OPTIONAL=a value".to_string(),
            "AN_ENUM=Second".to_string(),
            "STRING_LIST__0=a".to_string(),
            "STRING_LIST__1=b".to_string(),
            "NESTED__SOMETHING=42".to_string(),
            "NESTED_LIST__0__SOMETHING=1".to_string(),
            "NESTED_LIST__1__SOMETHING=2".to_string(),
            "SOMETHING_ELSE=3.1415927".to_string(),
        ]
    );
}

#[test]
fn flatten_example_yields_ordered_pairs() {
    let mut serializer = ViperEnvironmentSerializer::new();
    let value = Value::Record(vec![
        field("name", text("John")),
        field("age", Value::Int(32)),
        field("is_active", Value::Bool(true)),
        field("string_list", Value::Sequence(vec![text("a"), text("b")])),
        field(
            "nested",
            Value::Record(vec![field("something", Value::Int(42))]),
        ),
    ]);
    serializer.serialize(&value).unwrap();
    let pairs: Vec<(String, String)> = serializer
        .pairs
        .iter()
        .map(|p| (p.key.clone(), p.value.clone()))
        .collect();
    assert_eq!(
        pairs,
        vec![
            ("NAME".to_string(), "John".to_string()),
            ("AGE".to_string(), "32".to_string()),
            ("IS_ACTIVE".to_string(), "true".to_string()),
            ("STRING_LIST__0".to_string(), "a".to_string()),
            ("STRING_LIST__1".to_string(), "b".to_string()),
            ("NESTED__SOMETHING".to_string(), "42".to_string()),
        ]
    );
    assert!(serializer.field_stack.is_empty());
}

#[test]
fn prefix_is_joined_with_double_underscore() {
    let mut serializer = ViperEnvironmentSerializer::new_with_prefix("SFTPGO".to_string());
    let value = Value::Record(vec![field(
        "common",
        Value::Record(vec![field("idle_timeout", Value::Int(15))]),
    )]);
    serializer.serialize(&value).unwrap();
    assert_eq!(
        serializer.values,
        vec!["SFTPGO__COMMON__IDLE_TIMEOUT=15".to_string()]
    );
}

#[test]
fn absent_values_and_units_emit_nothing() {
    let mut serializer = ViperEnvironmentSerializer::new();
    let value = Value::Record(vec![
        field("a", Value::Absent),
        field("b", Value::Unit),
        field("c", Value::Sequence(vec![])),
        field("d", Value::Record(vec![])),
    ]);
    serializer.serialize(&value).unwrap();
    assert!(serializer.values.is_empty());
    assert!(serializer.pairs.is_empty());
}

#[test]
fn negative_and_extreme_integers_render_in_decimal() {
    let mut serializer = ViperEnvironmentSerializer::new();
    let value = Value::Record(vec![
        field("low", Value::Int(i64::MIN)),
        field("minus", Value::Int(-7)),
        field("zero", Value::Int(0)),
        field("high", Value::UInt(u64::MAX)),
        field("letter", Value::Char('x')),
    ]);
    serializer.serialize(&value).unwrap();
    assert_eq!(
        serializer.values,
        vec![
            "LOW=-9223372036854775808".to_string(),
            "MINUS=-7".to_string(),
            "ZERO=0".to_string(),
            "HIGH=18446744073709551615".to_string(),
            "LETTER=x".to_string(),
        ]
    );
}

#[test]
fn byte_arrays_are_rejected() {
    let mut serializer = ViperEnvironmentSerializer::new();
    let value = Value::Record(vec![
        field("first", Value::Int(1)),
        field("raw", Value::Bytes(vec![1, 2, 3])),
        field("last", Value::Int(2)),
    ]);
    let result = serializer.serialize(&value);
    assert!(matches!(result, Err(Error::ByteArrayNotSupported)));
    assert_eq!(serializer.values, vec!["FIRST=1".to_string()]);
    assert_eq!(serializer.field_stack.len(), 1);
    assert!(matches!(
        &serializer.field_stack[0],
        ViperEnvironmentSerializerStackElement::String(s) if s == "RAW"
    ));
}

#[test]
fn maps_are_rejected() {
    let mut serializer = ViperEnvironmentSerializer::new();
    let value = Value::Sequence(vec![Value::Mapping(vec![(text("k"), text("v"))])]);
    let result = serializer.serialize(&value);
    match result {
        Err(Error::SerializeError(message)) => assert_eq!(message, "Map is not supported"),
        other => panic!("unexpected result: {:?}", other),
    }
    assert!(serializer.values.is_empty());
}

#[test]
fn closing_a_sequence_that_is_not_open_is_an_invalid_stack() {
    let mut serializer = ViperEnvironmentSerializer::new();
    match serializer.end() {
        Err(Error::InvalidStack(expected, found)) => {
            assert!(matches!(
                expected,
                ViperEnvironmentSerializerStackElement::Index(0)
            ));
            assert_eq!(found.len(), 1);
            assert!(found[0].is_none());
        }
        other => panic!("unexpected result: {:?}", other),
    }
}

#[test]
fn an_element_outside_a_sequence_is_an_invalid_stack() {
    let mut serializer = ViperEnvironmentSerializer::new();
    serializer
        .field_stack
        .push(ViperEnvironmentSerializerStackElement::String("A".to_string()));
    match serializer.serialize_element(&Value::Int(5)) {
        Err(Error::InvalidStack(expected, found)) => {
            assert!(matches!(
                expected,
                ViperEnvironmentSerializerStackElement::Index(0)
            ));
            assert_eq!(found.len(), 1);
            assert!(matches!(
                &found[0],
                Some(ViperEnvironmentSerializerStackElement::String(s)) if s == "A"
            ));
        }
        other => panic!("unexpected result: {:?}", other),
    }
    assert_eq!(serializer.values, vec!["A=5".to_string()]);
    assert!(serializer.field_stack.is_empty());
}

#[test]
fn the_steps_of_a_sequence_count_its_elements() {
    let mut serializer = ViperEnvironmentSerializer::new();
    serializer.serialize_seq(Some(2)).unwrap();
    assert_eq!(serializer.get_key(), "0");
    serializer.serialize_element(&text("a")).unwrap();
    assert_eq!(serializer.get_key(), "1");
    serializer.serialize_element(&text("b")).unwrap();
    assert_eq!(serializer.get_key(), "2");
    serializer.end().unwrap();
    assert_eq!(serializer.get_key(), "");
    assert_eq!(serializer.values, vec!["0=a".to_string(), "1=b".to_string()]);
}

#[test]
fn field_names_are_written_in_upper_case() {
    let mut serializer = ViperEnvironmentSerializer::new();
    serializer
        .serialize_field("mixedCase_name", &Value::Bool(false))
        .unwrap();
    assert_eq!(serializer.values, vec!["MIXEDCASE_NAME=false".to_string()]);
    serializer
        .serialize_field_as("kept".to_string(), &Value::Bool(true))
        .unwrap();
    assert_eq!(serializer.values[1], "kept=true");
}

#[test]
fn add_value_uses_the_key_of_the_current_path() {
    let mut serializer = ViperEnvironmentSerializer::new_with_prefix("P".to_string());
    assert_eq!(serializer.get_key(), "P__");
    serializer.add_value("root");
    serializer
        .field_stack
        .push(ViperEnvironmentSerializerStackElement::String("A".to_string()));
    serializer
        .field_stack
        .push(ViperEnvironmentSerializerStackElement::Index(3));
    assert_eq!(serializer.get_key(), "P__A__3");
    serializer.add_value("leaf");
    assert_eq!(
        serializer.values,
        vec!["P__=root".to_string(), "P__A__3=leaf".to_string()]
    );
    assert_eq!(serializer.pairs[1].key, "P__A__3");
    assert_eq!(serializer.pairs[1].value, "leaf");
}

#[test]
fn stack_elements_compare_and_render() {
    let name = ViperEnvironmentSerializerStackElement::String("NAME".to_string());
    let index = ViperEnvironmentSerializerStackElement::Index(12);
    assert!(name.same(&name.duplicate()));
    assert!(!name.same(&index));
    assert!(index.same(&ViperEnvironmentSerializerStackElement::Index(12)));
    assert!(!index.same(&ViperEnvironmentSerializerStackElement::Index(13)));
    assert_eq!(name.to_string(), "NAME");
    assert_eq!(index.to_string(), "12");
}

#[derive(Debug, PartialEq)]
enum Nested {
    Leaf(String),
    Branch(std::collections::BTreeMap<String, Nested>),
}

fn put(node: &mut Nested, path: &[&str], text: &str) {
    match path.split_first() {
        None => *node = Nested::Leaf(text.to_string()),
        Some((label, rest)) => {
            if !matches!(node, Nested::Branch(_)) {
                *node = Nested::Branch(std::collections::BTreeMap::new());
            }
            if let Nested::Branch(children) = node {
                let child = children
                    .entry(label.to_string())
                    .or_insert_with(|| Nested::Branch(std::collections::BTreeMap::new()));
                put(child, rest, text);
            }
        }
    }
}

fn branch(children: Vec<(&str, Nested)>) -> Nested {
    Nested::Branch(
        children
            .into_iter()
            .map(|(label, child)| (label.to_string(), child))
            .collect(),
    )
}

fn leaf(text: &str) -> Nested {
    Nested::Leaf(text.to_string())
}

#[test]
fn flattened_pairs_parse_back_into_the_nested_map() {
    let mut serializer = ViperEnvironmentSerializer::new_with_prefix("SFTPGO".to_string());
    let value = Value::Record(vec![
        field("name", text("John")),
        field("missing", Value::Absent),
        field("tags", Value::Sequence(vec![text("a"), Value::Absent, text("c")])),
        field(
            "nested",
            Value::Record(vec![
                field("trailing_", Value::Int(42)),
                field(
                    "deep",
                    Value::Sequence(vec![Value::Record(vec![field("x", Value::Bool(true))])]),
                ),
            ]),
        ),
        field("empty", Value::Record(vec![])),
    ]);
    serializer.serialize(&value).unwrap();

    let mut parsed = Nested::Branch(std::collections::BTreeMap::new());
    for pair in &serializer.pairs {
        let key = pair.key.strip_prefix("SFTPGO__").unwrap();
        let mut labels: Vec<&str> = Vec::new();
        let mut rest = key;
        while let Some(cut) = rest.rfind("__") {
            labels.insert(0, &rest[cut + 2..]);
            rest = &rest[..cut];
        }
        labels.insert(0, rest);
        put(&mut parsed, &labels, &pair.value);
    }

    let expected = branch(vec![
        ("NAME", leaf("John")),
        ("TAGS", branch(vec![("0", leaf("a")), ("2", leaf("c"))])),
        (
            "NESTED",
            branch(vec![
                ("TRAILING_", leaf("42")),
                (
                    "DEEP",
                    branch(vec![("0", branch(vec![("X", leaf("true"))]))]),
                ),
            ]),
        ),
    ]);
    assert_eq!(parsed, expected);
}

#[test]
fn stack_elements_are_made_from_names_and_indices() {
    let name: ViperEnvironmentSerializerStackElement = "NAME".to_string().into();
    assert!(matches!(name, ViperEnvironmentSerializerStackElement::String(s) if s == "NAME"));
    let index: ViperEnvironmentSerializerStackElement = 4usize.into();
    assert!(matches!(index, ViperEnvironmentSerializerStackElement::Index(4)));
}
