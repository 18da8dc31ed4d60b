use quickfig::{
    backend_for_path, coerce, load, open_first_match, AllowedType, AllowedTypeMarker, Backend,
    Config, ConfigFields, Entry, Field, FieldSpec, FloatBits, Integer, Node, OpenError,
    ParseError, RawNode, TestEnum, TestFile, TestFileType, VecField,
};
use std::cell::Cell;

fn integer(v: i128) -> Integer {
    Integer { negative: v < 0, magnitude: v.unsigned_abs() }
}

/// A JSON integer: readable both as an integer and as a float.
fn json_int(v: i128) -> Node {
    let f = v as f64;
    Node::Number {
        integer: Some(integer(v)),
        float: Some(FloatBits { f64_bits: f.to_bits(), f32_bits: (f as f32).to_bits() }),
    }
}

/// A TOML integer: readable only as an integer.
fn toml_int(v: i64) -> Node {
    Node::Number { integer: Some(integer(v as i128)), float: None }
}

fn float_node(f: f64) -> Node {
    Node::Number {
        integer: None,
        float: Some(FloatBits { f64_bits: f.to_bits(), f32_bits: (f as f32).to_bits() }),
    }
}

fn string_node(s: &str) -> Node {
    Node::Str(s.to_string())
}

fn doc(entries: Vec<(&str, Node)>) -> Config<()> {
    Config::new(
        entries
            .into_iter()
            .map(|(k, node)| Entry { key: k.to_string(), node, raw: () })
            .collect(),
    )
    .unwrap()
}

fn spec(keys: &[&str], types: &[AllowedTypeMarker]) -> FieldSpec {
    FieldSpec { keys: keys.iter().map(|k| k.to_string()).collect(), types: types.to_vec() }
}

fn field(key: &str, value: AllowedType) -> Field {
    Field { key: key.to_string(), value }
}

#[test]
fn single_key_multi_type_scenario() {
    let config = doc(vec![("id", json_int(9)), ("title", string_node("foo"))]);
    let s = spec(&["id", "ID"], &[AllowedTypeMarker::U8, AllowedTypeMarker::U16]);
    let result = config.resolve(&s).unwrap();
    assert_eq!(
        result,
        vec![field("id", AllowedType::U8(9)), field("id", AllowedType::U16(9))]
    );
    assert!(result.only_one_key().is_ok());
    assert_eq!(result.get_u8(), Some(9));
    assert_eq!(result.get_u16(), Some(9));
    assert_eq!(result.get_string(), None);
}

#[test]
fn multi_key_ambiguity_scenario() {
    let config = doc(vec![("A", json_int(1)), ("B", json_int(9))]);
    let s = spec(&["A", "B"], &[AllowedTypeMarker::U8]);
    let result = config.resolve(&s).unwrap();
    assert_eq!(result, vec![field("A", AllowedType::U8(1)), field("B", AllowedType::U8(9))]);
    let err = result.only_one_key().unwrap_err();
    assert_eq!(err.keys, vec!["A".to_string(), "B".to_string()]);
    assert_eq!(result.get_u8(), Some(1));
}

#[test]
fn type_mismatch_is_absence_scenario() {
    let config = doc(vec![("Char", json_int(1))]);
    let s = spec(&["Char"], &[AllowedTypeMarker::Char]);
    assert!(config.resolve(&s).is_none());
}

#[test]
fn absent_when_no_key_present() {
    let config = doc(vec![("a", json_int(1))]);
    assert!(config.resolve(&spec(&["b", "c"], &[AllowedTypeMarker::U8])).is_none());
    assert!(config.resolve(&spec(&["a"], &[])).is_none());
    assert!(config.resolve(&spec(&[], &[AllowedTypeMarker::U8])).is_none());
}

#[test]
fn present_when_one_key_and_type_match() {
    let config = doc(vec![("a", string_node("x")), ("b", json_int(300))]);
    let s = spec(&["a", "b"], &[AllowedTypeMarker::U8, AllowedTypeMarker::U16]);
    let result = config.resolve(&s).unwrap();
    assert_eq!(result, vec![field("b", AllowedType::U16(300))]);
}

#[test]
fn order_is_keys_then_types() {
    let config = doc(vec![("y", json_int(5)), ("x", json_int(7))]);
    let s = spec(&["x", "y"], &[AllowedTypeMarker::I8, AllowedTypeMarker::U8]);
    let result = config.resolve(&s).unwrap();
    assert_eq!(
        result,
        vec![
            field("x", AllowedType::I8(7)),
            field("x", AllowedType::U8(7)),
            field("y", AllowedType::I8(5)),
            field("y", AllowedType::U8(5)),
        ]
    );
    assert!(result.only_one_key().is_err());
}

#[test]
fn resolution_is_deterministic() {
    let config = doc(vec![("A", json_int(1)), ("B", string_node("foo"))]);
    let s = spec(
        &["A", "B"],
        &[AllowedTypeMarker::String, AllowedTypeMarker::U8, AllowedTypeMarker::F64],
    );
    let first = config.resolve(&s);
    let second = config.resolve(&s);
    assert_eq!(first, second);
    assert_eq!(first.unwrap().len(), 3);
}

#[test]
fn only_one_key_reports_each_key_once() {
    let fields = vec![
        field("a", AllowedType::U8(1)),
        field("b", AllowedType::U8(2)),
        field("a", AllowedType::U16(1)),
        field("c", AllowedType::Bool(true)),
    ];
    let err = fields.only_one_key().unwrap_err();
    assert_eq!(err.keys, vec!["a".to_string(), "b".to_string(), "c".to_string()]);
    let same = vec![field("k", AllowedType::U8(1)), field("k", AllowedType::U16(1))];
    assert!(same.only_one_key().is_ok());
}

#[test]
fn unsigned_boundaries() {
    let cases: Vec<(AllowedTypeMarker, u128)> = vec![
        (AllowedTypeMarker::U8, u8::MAX as u128),
        (AllowedTypeMarker::U16, u16::MAX as u128),
        (AllowedTypeMarker::U32, u32::MAX as u128),
        (AllowedTypeMarker::U64, u64::MAX as u128),
    ];
    for (ty, max) in cases {
        let at_max = Node::Number {
            integer: Some(Integer { negative: false, magnitude: max }),
            float: None,
        };
        let over = Node::Number {
            integer: Some(Integer { negative: false, magnitude: max + 1 }),
            float: None,
        };
        assert!(coerce(&at_max, ty).is_some());
        assert!(coerce(&over, ty).is_none());
        assert!(coerce(&toml_int(0), ty).is_some());
        assert!(coerce(&toml_int(-1), ty).is_none());
    }
    assert_eq!(coerce(&json_int(255), AllowedTypeMarker::U8), Some(AllowedType::U8(255)));
    assert_eq!(coerce(&json_int(256), AllowedTypeMarker::U8), None);
    let top = Node::Number {
        integer: Some(Integer { negative: false, magnitude: u128::MAX }),
        float: None,
    };
    assert_eq!(coerce(&top, AllowedTypeMarker::U128), Some(AllowedType::U128(u128::MAX)));
    assert_eq!(coerce(&top, AllowedTypeMarker::I128), None);
}

#[test]
fn signed_boundaries() {
    assert_eq!(coerce(&json_int(-128), AllowedTypeMarker::I8), Some(AllowedType::I8(-128)));
    assert_eq!(coerce(&json_int(-129), AllowedTypeMarker::I8), None);
    assert_eq!(coerce(&json_int(127), AllowedTypeMarker::I8), Some(AllowedType::I8(127)));
    assert_eq!(coerce(&json_int(128), AllowedTypeMarker::I8), None);
    assert_eq!(
        coerce(&toml_int(i64::MIN), AllowedTypeMarker::I64),
        Some(AllowedType::I64(i64::MIN))
    );
    assert_eq!(
        coerce(&toml_int(i64::MIN), AllowedTypeMarker::I128),
        Some(AllowedType::I128(i64::MIN as i128))
    );
    assert_eq!(
        coerce(&json_int(i128::MIN), AllowedTypeMarker::I128),
        Some(AllowedType::I128(i128::MIN))
    );
    let below = Node::Number {
        integer: Some(Integer { negative: true, magnitude: 1u128 << 127 | 1 }),
        float: None,
    };
    assert_eq!(coerce(&below, AllowedTypeMarker::I128), None);
    let negative_zero = Node::Number {
        integer: Some(Integer { negative: true, magnitude: 0 }),
        float: None,
    };
    assert_eq!(coerce(&negative_zero, AllowedTypeMarker::U8), Some(AllowedType::U8(0)));
}

#[test]
fn string_char_and_bool_rules() {
    assert_eq!(
        coerce(&string_node("hello"), AllowedTypeMarker::Char),
        Some(AllowedType::Char('h'))
    );
    assert_eq!(coerce(&string_node("é!"), AllowedTypeMarker::Char), Some(AllowedType::Char('é')));
    assert_eq!(coerce(&string_node(""), AllowedTypeMarker::Char), None);
    assert_eq!(
        coerce(&string_node(""), AllowedTypeMarker::String),
        Some(AllowedType::String(String::new()))
    );
    assert_eq!(coerce(&Node::Bool(true), AllowedTypeMarker::Bool), Some(AllowedType::Bool(true)));
    assert_eq!(coerce(&json_int(1), AllowedTypeMarker::Bool), None);
    assert_eq!(coerce(&string_node("true"), AllowedTypeMarker::Bool), None);
    assert_eq!(coerce(&Node::Bool(true), AllowedTypeMarker::String), None);
    assert_eq!(coerce(&string_node("1"), AllowedTypeMarker::U8), None);
    assert_eq!(coerce(&Node::Other, AllowedTypeMarker::String), None);
}

#[test]
fn float_rules() {
    let f = float_node(1.5);
    assert_eq!(coerce(&f, AllowedTypeMarker::F64), Some(AllowedType::F64(1.5f64.to_bits())));
    assert_eq!(coerce(&f, AllowedTypeMarker::F32), Some(AllowedType::F32(1.5f32.to_bits())));
    assert_eq!(coerce(&f, AllowedTypeMarker::U8), None);
    assert_eq!(coerce(&json_int(3), AllowedTypeMarker::F64), Some(AllowedType::F64(3.0f64.to_bits())));
    assert_eq!(coerce(&toml_int(3), AllowedTypeMarker::F64), None);
}

#[test]
fn getters_take_first_field_of_kind() {
    let fields = vec![
        field("a", AllowedType::U16(7)),
        field("b", AllowedType::String("x".to_string())),
        field("c", AllowedType::U16(9)),
        field("d", AllowedType::F32(2.0f32.to_bits())),
    ];
    assert_eq!(fields.get_u16(), Some(7));
    assert_eq!(fields.get_string(), Some("x".to_string()));
    assert_eq!(fields.get_u8(), None);
    assert_eq!(fields.get_f32_bits(), Some(2.0f32.to_bits()));
    assert_eq!(fields.get_f64_bits(), None);
    assert_eq!(fields.get_wrapper().map(|f| f.get_key()), Some("a".to_string()));
    let empty: Vec<Field> = Vec::new();
    assert!(empty.get_wrapper().is_none());
}

#[test]
fn has_key_and_get_at() {
    let config = doc(vec![("k", json_int(4)), ("K", Node::Other)]);
    assert!(config.has_key("k"));
    assert!(config.has_key("K"));
    assert!(!config.has_key("x"));
    assert_eq!(config.get_at("k"), Some(&json_int(4)));
    assert_eq!(config.get_at("missing"), None);
}

#[test]
fn generic_inner_is_the_first_fields_raw_value() {
    let config: Config<u32> = Config::new(vec![
        Entry { key: "a".to_string(), node: json_int(1), raw: 10 },
        Entry { key: "b".to_string(), node: json_int(2), raw: 20 },
    ])
    .unwrap();
    let result = config.resolve(&spec(&["b", "a"], &[AllowedTypeMarker::U8])).unwrap();
    assert_eq!(config.get_generic_inner(&result), Some(&20));
    assert_eq!(config.get_generic_inner(&Vec::new()), None);
}

#[test]
fn default_key_when_none_declared() {
    let s = FieldSpec::new(Vec::new(), "Name".to_string(), vec![AllowedTypeMarker::U8]);
    assert_eq!(s.keys, vec!["Name".to_string()]);
    let s = FieldSpec::new(vec!["a".to_string()], "Name".to_string(), vec![]);
    assert_eq!(s.keys, vec!["a".to_string()]);
}

#[test]
fn test_enum_fields_use_variant_names() {
    let s = TestEnum::U8_MAX.field_spec();
    assert_eq!(s.keys, vec!["U8_MAX".to_string()]);
    assert_eq!(s.types.len(), 15);
    let config = doc(vec![("U8_MAX", toml_int(255))]);
    let result = config.get(&TestEnum::U8_MAX).unwrap();
    assert_eq!(result.get_u8(), Some(255));
    assert_eq!(result.get_i8(), None);
    assert!(config.get(&TestEnum::U8_MIN).is_none());
}

#[test]
fn backend_selection_by_extension() {
    assert!(matches!(backend_for_path("/a/b/config.json"), Ok(Backend::Json)));
    assert!(matches!(backend_for_path("c.toml"), Ok(Backend::Toml)));
    assert!(matches!(backend_for_path("/a/b/config"), Err(OpenError::MissingExtension)));
    assert!(matches!(backend_for_path("/a/.json"), Err(OpenError::MissingExtension)));
    match backend_for_path("x.yaml") {
        Err(OpenError::UnsupportedExtension(e)) => assert_eq!(e, "yaml"),
        other => panic!("unexpected {:?}", other),
    }
    assert!(matches!(backend_for_path("x.JSON"), Err(OpenError::UnsupportedExtension(_))));
}

#[test]
fn load_refuses_empty_and_malformed_text() {
    assert!(matches!(load(Backend::Json, ""), Err(OpenError::EmptyDocument)));
    assert!(matches!(load(Backend::Toml, ""), Err(OpenError::EmptyDocument)));
    assert!(matches!(
        load(Backend::Json, "{\"a\": "),
        Err(OpenError::ParseFailure(ParseError::Json(_)))
    ));
    assert!(matches!(
        load(Backend::Toml, "a = = 1"),
        Err(OpenError::ParseFailure(ParseError::Toml(_)))
    ));
    match load(Backend::Json, "{\"a\": 1}") {
        Ok(RawNode::Json(v)) => assert_eq!(v["a"].as_u64(), Some(1)),
        other => panic!("unexpected {:?}", other),
    }
    match load(Backend::Toml, "a = 1") {
        Ok(RawNode::Toml(v)) => assert_eq!(v.get("a").and_then(|x| x.as_integer()), Some(1)),
        other => panic!("unexpected {:?}", other),
    }
}

#[test]
fn big_integers_only_open_as_json() {
    let text = "U64_MAX = 18446744073709551615";
    assert!(matches!(load(Backend::Toml, text), Err(OpenError::ParseFailure(_))));
    match load(Backend::Json, "{\"U64_MAX\": 18446744073709551615}") {
        Ok(RawNode::Json(v)) => assert_eq!(v["U64_MAX"].as_u64(), Some(u64::MAX)),
        other => panic!("unexpected {:?}", other),
    }
    let node = Node::Number {
        integer: Some(Integer { negative: false, magnitude: u64::MAX as u128 }),
        float: None,
    };
    assert_eq!(coerce(&node, AllowedTypeMarker::U64), Some(AllowedType::U64(u64::MAX)));
}

#[test]
fn path_search_stops_at_first_match() {
    let paths = vec!["missing.json".to_string(), "bar.json".to_string(), "later.json".to_string()];
    let searched = Cell::new(0u32);
    let result = open_first_match(
        paths,
        |p: String| {
            searched.set(searched.get() + 1);
            assert_ne!(p, "later.json", "a later path was searched");
            if p == "missing.json" {
                None
            } else {
                Some(p)
            }
        },
        |p: String| -> Result<String, OpenError> { Ok(p) },
    );
    assert_eq!(result.unwrap(), "bar.json");
    assert_eq!(searched.get(), 2);
}

#[test]
fn path_search_returns_the_open_failure_of_the_match() {
    let paths = vec!["a.json".to_string(), "b.json".to_string()];
    let result = open_first_match(
        paths,
        |p: String| Some(p),
        |p: String| -> Result<(), OpenError> { Err(OpenError::IoFailure(p)) },
    );
    match result {
        Err(OpenError::IoFailure(p)) => assert_eq!(p, "a.json"),
        other => panic!("unexpected {:?}", other),
    }
}

#[test]
fn path_search_without_match() {
    let result = open_first_match(
        vec!["a".to_string(), "b".to_string()],
        |_p: String| None,
        |_p: String| -> Result<(), OpenError> { panic!("opened without a match") },
    );
    assert!(matches!(result, Err(OpenError::NoPathMatched)));
    let result = open_first_match(
        Vec::new(),
        |p: String| Some(p),
        |_p: String| -> Result<(), OpenError> { Ok(()) },
    );
    assert!(matches!(result, Err(OpenError::NoPathMatched)));
}

#[test]
fn test_file_entries_replace_in_place() {
    let mut tf = TestFile::new_at_path("/tmp/x.json".to_string(), TestFileType::JSON);
    assert_eq!(tf.get_path(), "/tmp/x.json");
    assert_eq!(tf.get_type(), TestFileType::JSON);
    tf.add_entry(("a".to_string(), AllowedType::U8(1)));
    tf.add_entry(("b".to_string(), AllowedType::Bool(true)));
    tf.add_entry(("a".to_string(), AllowedType::U16(2)));
    assert_eq!(
        tf.get_entries(),
        &vec![
            ("a".to_string(), AllowedType::U16(2)),
            ("b".to_string(), AllowedType::Bool(true)),
        ]
    );
}

#[test]
fn all_type_entries_per_grammar() {
    let mut json = TestFile::new_at_path("j.json".to_string(), TestFileType::JSON);
    json.add_all_type_entries(TestFileType::JSON);
    assert_eq!(json.get_entries().len(), 27);
    let mut toml = TestFile::new_at_path("t.toml".to_string(), TestFileType::TOML);
    toml.add_all_type_entries(TestFileType::TOML);
    assert_eq!(toml.get_entries().len(), 21);
    assert!(toml.get_entries().iter().all(|(k, _)| !k.starts_with("U64")
        && !k.starts_with("U128")
        && !k.starts_with("I128")));
    let f32_entry = &json.get_entries()[25];
    assert_eq!(f32_entry.0, "F32_MIN_POSITIVE");
    assert_eq!(f32_entry.1, AllowedType::F32(f32::MIN_POSITIVE.to_bits()));
    assert_eq!(json.get_entries()[26].1, AllowedType::F64(f64::MIN_POSITIVE.to_bits()));
}

#[test]
fn kinds_from_type_names() {
    assert_eq!(AllowedTypeMarker::from_type_name("String"), Some(AllowedTypeMarker::String));
    assert_eq!(AllowedTypeMarker::from_type_name("char"), Some(AllowedTypeMarker::Char));
    assert_eq!(AllowedTypeMarker::from_type_name("u128"), Some(AllowedTypeMarker::U128));
    assert_eq!(AllowedTypeMarker::from_type_name("i8"), Some(AllowedTypeMarker::I8));
    assert_eq!(AllowedTypeMarker::from_type_name("bool"), Some(AllowedTypeMarker::Bool));
    assert_eq!(AllowedTypeMarker::from_type_name("f64"), Some(AllowedTypeMarker::F64));
    assert_eq!(AllowedTypeMarker::from_type_name("string"), None);
    assert_eq!(AllowedTypeMarker::from_type_name("Vec"), None);
    assert_eq!(AllowedTypeMarker::from_type_name(""), None);
}

#[test]
fn value_getters_match_their_kind() {
    let v = AllowedType::I16(-3);
    assert_eq!(v.marker(), AllowedTypeMarker::I16);
    assert_eq!(v.get_i16(), Some(-3));
    assert_eq!(v.get_i32(), None);
    assert_eq!(AllowedType::String("s".to_string()).get_string(), Some("s".to_string()));
    assert_eq!(AllowedType::Char('s').get_string(), None);
    let f = Field::new("k".to_string(), AllowedType::Bool(false));
    assert_eq!(f.get_type(), AllowedTypeMarker::Bool);
    assert_eq!(f.get_key(), "k");
}

#[test]
fn documents_hold_each_key_once() {
    let dup: Option<Config<()>> = Config::new(vec![
        Entry { key: "a".to_string(), node: json_int(1), raw: () },
        Entry { key: "b".to_string(), node: json_int(2), raw: () },
        Entry { key: "a".to_string(), node: json_int(3), raw: () },
    ]);
    assert!(dup.is_none());
    let empty: Option<Config<()>> = Config::new(Vec::new());
    assert!(empty.is_some());
    let config = doc(vec![("a", json_int(1)), ("A", json_int(2))]);
    assert_eq!(config.get_at("A"), Some(&json_int(2)));
}
