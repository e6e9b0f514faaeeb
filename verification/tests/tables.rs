use xi_config::parse::load_config;
use xi_config::value::{Table, Value};

#[test]
fn toml_text_becomes_a_table() {
    let table = load_config("tab_size = 42\nnewline = \"\\n\"\n[nested]\nflag = true\nlist = [1, 2]\n")
        .unwrap();
    assert!(matches!(table.get("tab_size"), Some(Value::Integer(42))));
    assert!(matches!(table.get("newline"), Some(Value::String(s)) if s == "\n"));
    assert!(table.get("missing").is_none());
    assert_eq!(table.len(), 3);
    match table.get("nested") {
        Some(Value::Table(inner)) => {
            assert!(matches!(inner.get("flag"), Some(Value::Boolean(true))));
            match inner.get("list") {
                Some(Value::Array(items)) => {
                    assert_eq!(items.len(), 2);
                    assert!(matches!(items[0], Value::Integer(1)));
                    assert!(matches!(items[1], Value::Integer(2)));
                }
                _ => panic!("list is not an array"),
            }
        }
        _ => panic!("nested is not a table"),
    }
}

#[test]
fn floats_keep_their_bits() {
    let table = load_config("ratio = 1.5").unwrap();
    match table.get("ratio") {
        Some(Value::Float(bits)) => assert_eq!(f64::from_bits(*bits), 1.5),
        _ => panic!("ratio is not a float"),
    }
}

#[test]
fn malformed_toml_is_rejected() {
    let error = load_config("tab_size = = 4").err().unwrap();
    assert!(!error.message.is_empty());
}

#[test]
fn the_empty_text_is_the_empty_table() {
    assert!(load_config("").unwrap().is_empty());
}

#[test]
fn insert_replaces_what_was_there() {
    let mut table = Table::new();
    assert!(table.is_empty());
    table.insert(String::from("a"), Value::from(1));
    table.insert(String::from("b"), Value::from(true));
    table.insert(String::from("a"), Value::text("one"));
    assert_eq!(table.len(), 2);
    assert!(table.contains_key("a"));
    assert!(!table.contains_key("c"));
    assert!(matches!(table.get("a"), Some(Value::String(s)) if s == "one"));
    assert!(matches!(table.get("b"), Some(Value::Boolean(true))));
    let mut keys = table.keys();
    keys.sort();
    assert_eq!(keys, vec![String::from("a"), String::from("b")]);
}

#[test]
fn from_entries_keeps_the_later_of_two() {
    let table = Table::from_entries(vec![
        (String::from("a"), Value::from(1)),
        (String::from("b"), Value::from(2)),
        (String::from("a"), Value::from(3)),
    ]);
    assert_eq!(table.len(), 2);
    assert!(matches!(table.get("a"), Some(Value::Integer(3))));
    assert!(matches!(table.get("b"), Some(Value::Integer(2))));
}

#[test]
fn merge_from_lets_the_other_table_win() {
    let mut table = load_config("a = 1\nb = 2").unwrap();
    let other = load_config("b = 3\nc = 4").unwrap();
    table.merge_from(&other);
    assert_eq!(table.len(), 3);
    assert!(matches!(table.get("a"), Some(Value::Integer(1))));
    assert!(matches!(table.get("b"), Some(Value::Integer(3))));
    assert!(matches!(table.get("c"), Some(Value::Integer(4))));
    assert_eq!(other.len(), 2);
}

#[test]
fn a_clone_is_deep() {
    let table = load_config("[a]\nb = [\"x\", \"y\"]").unwrap();
    let copy = table.clone();
    match copy.get("a") {
        Some(Value::Table(inner)) => match inner.get("b") {
            Some(Value::Array(items)) => {
                assert!(matches!(&items[1], Value::String(s) if s == "y"));
            }
            _ => panic!("b is not an array"),
        },
        _ => panic!("a is not a table"),
    }
    let value = Value::Array(vec![Value::from(1), Value::Unsigned(2), Value::Nil]);
    match value.clone() {
        Value::Array(items) => {
            assert!(matches!(items[0], Value::Integer(1)));
            assert!(matches!(items[1], Value::Unsigned(2)));
            assert!(matches!(items[2], Value::Nil));
        }
        _ => panic!("the clone is not an array"),
    }
}

#[test]
fn values_are_made_from_plain_values() {
    assert!(matches!(Value::from(67), Value::Integer(67)));
    assert!(matches!(Value::from(false), Value::Boolean(false)));
    assert!(matches!(Value::from(String::from("s")), Value::String(s) if s == "s"));
    assert!(matches!(Value::text("t"), Value::String(s) if s == "t"));
}
