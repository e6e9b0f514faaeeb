use xi_config::pair::ConfigPair;
use xi_config::parse::load_config;
use xi_config::value::{Table, Value};

fn int_at(table: &Table, key: &str) -> Option<i128> {
    match table.get(key) {
        Some(Value::Integer(i)) => Some(*i),
        _ => None,
    }
}

#[test]
fn user_settings_mask_the_defaults() {
    let base = load_config("a = 1\nb = 2").unwrap();
    let user = load_config("b = 20\nc = 30").unwrap();
    let pair = ConfigPair::new(Some(base), Some(user));
    assert_eq!(pair.cache().len(), 3);
    assert_eq!(int_at(pair.cache(), "a"), Some(1));
    assert_eq!(int_at(pair.cache(), "b"), Some(20));
    assert_eq!(int_at(pair.cache(), "c"), Some(30));
    assert_eq!(int_at(pair.base().as_ref().unwrap(), "b"), Some(2));
}

#[test]
fn absent_layers_count_as_empty() {
    let pair = ConfigPair::new(None, None);
    assert!(pair.cache().is_empty());
    assert!(pair.base().is_none());
    assert!(pair.user().is_none());
    let pair = ConfigPair::default();
    assert!(pair.cache().is_empty());
    let pair = ConfigPair::new(None, Some(load_config("a = 1").unwrap()));
    assert_eq!(int_at(pair.cache(), "a"), Some(1));
}

#[test]
fn set_user_replaces_the_whole_layer() {
    let mut pair = ConfigPair::new(Some(load_config("a = 1").unwrap()), None);
    pair.set_override("b", Value::from(2), true);
    assert_eq!(int_at(pair.cache(), "b"), Some(2));
    pair.set_user(load_config("c = 3").unwrap());
    assert_eq!(int_at(pair.cache(), "a"), Some(1));
    assert_eq!(int_at(pair.cache(), "b"), None);
    assert_eq!(int_at(pair.cache(), "c"), Some(3));
}

#[test]
fn set_override_writes_one_layer() {
    let mut pair = ConfigPair::new(None, None);
    pair.set_override("k", Value::from(1), false);
    assert_eq!(int_at(pair.base().as_ref().unwrap(), "k"), Some(1));
    assert!(pair.user().is_none());
    assert_eq!(int_at(pair.cache(), "k"), Some(1));
    pair.set_override("k", Value::from(2), true);
    assert_eq!(int_at(pair.base().as_ref().unwrap(), "k"), Some(1));
    assert_eq!(int_at(pair.user().as_ref().unwrap(), "k"), Some(2));
    assert_eq!(int_at(pair.cache(), "k"), Some(2));
    pair.set_override("k", Value::from(3), false);
    assert_eq!(int_at(pair.cache(), "k"), Some(2));
}

#[test]
fn rebuilding_twice_is_rebuilding_once() {
    let mut pair = ConfigPair::new(
        Some(load_config("a = 1\nb = 2").unwrap()),
        Some(load_config("b = 20").unwrap()),
    );
    pair.rebuild();
    let once: Vec<(String, Option<i128>)> =
        ["a", "b", "c"].iter().map(|k| (k.to_string(), int_at(pair.cache(), k))).collect();
    pair.rebuild();
    let twice: Vec<(String, Option<i128>)> =
        ["a", "b", "c"].iter().map(|k| (k.to_string(), int_at(pair.cache(), k))).collect();
    assert_eq!(once, twice);
    assert_eq!(once[1].1, Some(20));
    assert_eq!(pair.cache().len(), 2);
}

#[test]
fn merged_with_lets_the_argument_win() {
    let general = ConfigPair::new(Some(load_config("a = 1\nb = 2").unwrap()), Some(load_config("b = 3").unwrap()));
    let specific = ConfigPair::new(Some(load_config("b = 4\nc = 5").unwrap()), None);
    let merged = general.merged_with(&specific);
    assert_eq!(int_at(&merged, "a"), Some(1));
    assert_eq!(int_at(&merged, "b"), Some(4));
    assert_eq!(int_at(&merged, "c"), Some(5));
    // neither pair has changed
    assert_eq!(int_at(general.cache(), "b"), Some(3));
    assert_eq!(int_at(specific.cache(), "a"), None);
}

#[test]
fn a_table_is_replaced_whole_not_merged() {
    let base = load_config("[font]\nface = \"mono\"\nsize = 12").unwrap();
    let user = load_config("[font]\nsize = 14").unwrap();
    let pair = ConfigPair::new(Some(base), Some(user));
    match pair.cache().get("font") {
        Some(Value::Table(font)) => {
            assert_eq!(int_at(font, "size"), Some(14));
            assert!(font.get("face").is_none());
            assert_eq!(font.len(), 1);
        }
        _ => panic!("font is not a table"),
    }
}

#[test]
fn a_clone_holds_the_same_layers() {
    let pair = ConfigPair::new(Some(load_config("a = 1").unwrap()), Some(load_config("a = 2").unwrap()));
    let copy = pair.clone();
    assert_eq!(int_at(copy.cache(), "a"), Some(2));
    assert_eq!(int_at(copy.base().as_ref().unwrap(), "a"), Some(1));
}
