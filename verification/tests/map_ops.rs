//! The property map: round trips, appending, the sticky error state, and
//! the key grammar.

use vapoursynth4_rs::api::Api;
use vapoursynth4_rs::key::Key;
use vapoursynth4_rs::map::{AppendMode, MapPropertyError, Value, VsMap};
use vapoursynth4_rs::vs::VSPropertyType;
use vapoursynth4_rs::vscore::{Core, CoreBuilder};

fn test_core() -> Core {
    let api = Api::new(4, 0).unwrap();
    CoreBuilder::new().api(&api).build()
}

#[test]
fn clear() {
    let mut map = VsMap::default();
    let mut core = test_core();
    let key = Key::from_str("what").unwrap();
    map.set(&key, Value::Int(42), AppendMode::Replace).unwrap();

    map.clear();
    match map.get(&key, 0, &mut core) {
        Err(MapPropertyError::KeyNotFound) => {}
        _ => panic!("Map is not cleared"),
    }
}

#[test]
fn error() {
    let mut map = VsMap::default();
    let mut core = test_core();
    let key = Key::from_str("what").unwrap();
    map.set(&key, Value::Float(42.0f64.to_bits()), AppendMode::Replace)
        .unwrap();

    map.set_error("Yes");
    match map.get_error() {
        Some(msg) => assert_eq!(msg, "Yes", "Error message is not match"),
        None => panic!("Error is not set"),
    }
    // While the sticky error is set, every access answers it.
    match map.get(&key, 0, &mut core) {
        Err(MapPropertyError::MapError(msg)) => assert_eq!(msg, "Yes"),
        _ => panic!("Poisoned map did not answer the sticky error"),
    }
    match map.set(&key, Value::Float(42.0f64.to_bits()), AppendMode::Replace) {
        Err(MapPropertyError::MapError(..)) => {}
        _ => panic!(
            "Map after setting error can only be freed, \
                cleared, or queried for error"
        ),
    }
    // Clearing restores normal operation.
    map.clear();
    assert!(map.get_error().is_none(), "Map is not cleared after setting error");
    match map.get(&key, 0, &mut core) {
        Err(MapPropertyError::KeyNotFound) => {}
        _ => panic!("Map is not cleared after setting error"),
    }
    map.set(&key, Value::Float(42.0f64.to_bits()), AppendMode::Replace)
        .unwrap();
    match map.get(&key, 0, &mut core) {
        Ok(Value::Float(bits)) => assert_eq!(f64::from_bits(bits), 42.0),
        _ => panic!("Map is not usable after clearing the error"),
    }
}

#[test]
fn len() {
    let mut map = VsMap::default();
    let key = Key::from_str("what").unwrap();

    map.set(&key, Value::Data(vec![42, 43, 44, 45]), AppendMode::Replace)
        .unwrap();
    assert_eq!(1, map.len(), "Number of keys is not correct");

    assert!(!map.is_empty(), "Map is not empty");
}

#[test]
fn key() {
    let mut map = VsMap::default();
    let key = Key::from_str("what").unwrap();

    map.set(&key, Value::Float(42.0f64.to_bits()), AppendMode::Append)
        .unwrap();

    assert_eq!(key.as_str(), map.get_key(0).as_str(), "Key is not correct");

    let num = map.num_elements(&key).unwrap();
    assert_eq!(1, num);

    map.delete_key(&key);
    assert_eq!(
        0,
        map.len(),
        "Number of keys is not correct after deleting the key"
    );
}

#[test]
fn get_set() {
    let mut map = VsMap::default();
    let mut core = test_core();
    let key = Key::from_str("what").unwrap();

    let source = i64::from(i32::MAX) + 1;
    map.set(&key, Value::Int(source), AppendMode::Replace).unwrap();
    match map.get(&key, 0, &mut core).unwrap() {
        Value::Int(val) => assert_eq!(val, source, "Value of the key is not correct"),
        _ => panic!("Invalid type of the key"),
    }
    let res = map.get_int_saturated(&key, 0).unwrap();
    assert_eq!(res, i32::MAX, "Value of the key is not correct");
    map.set(&key, Value::Int(source), AppendMode::Append).unwrap();
    assert_eq!(vec![source, source], map.get_int_array(&key).unwrap());
    map.set_int_array(&key, vec![1, 2, 3]).unwrap();
    assert_eq!(vec![1, 2, 3], map.get_int_array(&key).unwrap());

    map.set(&key, Value::Float(1e25f64.to_bits()), AppendMode::Replace)
        .unwrap();
    match map.get(&key, 0, &mut core).unwrap() {
        Value::Float(bits) => {
            assert_eq!(f64::from_bits(bits), 1e25, "Value of the key is not correct");
        }
        _ => panic!("Invalid type of the key"),
    }
    let res = f64::from_bits(map.get_float(&key, 0).unwrap()) as f32;
    assert_eq!(
        res, 9_999_999_562_023_526_247_432_192.0,
        "Value of the key is not correct"
    );
    map.set(&key, Value::Float(f64::MAX.to_bits()), AppendMode::Append)
        .unwrap();
    assert_eq!(
        vec![1e25f64.to_bits(), f64::MAX.to_bits()],
        map.get_float_array(&key).unwrap()
    );
    map.set_float_array(&key, vec![1.0f64.to_bits(), 2.0f64.to_bits(), 3.0f64.to_bits()])
        .unwrap();
    assert_eq!(
        vec![1.0f64.to_bits(), 2.0f64.to_bits(), 3.0f64.to_bits()],
        map.get_float_array(&key).unwrap()
    );

    map.set(&key, Value::Data(vec![42, 43]), AppendMode::Replace).unwrap();
    match map.get(&key, 0, &mut core).unwrap() {
        Value::Data(val) => {
            assert_eq!(val, vec![42, 43], "Value of the key is not correct");
        }
        _ => panic!("Invalid type of the key"),
    }

    map.set(&key, Value::Utf8("good".to_string()), AppendMode::Replace)
        .unwrap();
    match map.get(&key, 0, &mut core).unwrap() {
        Value::Utf8(val) => {
            assert_eq!(val, "good", "Value of the key is not correct");
        }
        _ => panic!("Invalid type of the key"),
    }
}

#[test]
fn append_same_tag_and_mismatch() {
    let mut map = VsMap::default();
    let mut core = test_core();
    let key = Key::from_str("k").unwrap();

    map.set(&key, Value::Int(1), AppendMode::Replace).unwrap();
    map.set(&key, Value::Int(2), AppendMode::Append).unwrap();
    assert_eq!(map.num_elements(&key).unwrap(), 2);
    match map.get(&key, 1, &mut core).unwrap() {
        Value::Int(v) => assert_eq!(v, 2),
        _ => panic!("appended value has the wrong tag"),
    }
    match map.set(&key, Value::Utf8("x".to_string()), AppendMode::Append) {
        Err(MapPropertyError::InvalidType) => {}
        _ => panic!("appending a mismatched tag must be refused"),
    }
    // Binary and printable data share one tag.
    let dkey = Key::from_str("d").unwrap();
    map.set(&dkey, Value::Data(vec![1, 2]), AppendMode::Replace).unwrap();
    map.set(&dkey, Value::Utf8("ab".to_string()), AppendMode::Append)
        .unwrap();
    assert_eq!(map.num_elements(&dkey).unwrap(), 2);
    match map.get_binary(&dkey, 1) {
        Err(MapPropertyError::InvalidType) => {}
        _ => panic!("a printable element must be refused as raw bytes"),
    }
    assert_eq!(map.get_utf8(&dkey, 1).unwrap(), "ab");
}

#[test]
fn index_and_type_errors() {
    let mut map = VsMap::default();
    let key = Key::from_str("k").unwrap();
    map.set(&key, Value::Int(7), AppendMode::Replace).unwrap();
    match map.get_int(&key, 1) {
        Err(MapPropertyError::IndexOutOfBound) => {}
        _ => panic!("index past the values must be refused"),
    }
    match map.get_float(&key, 0) {
        Err(MapPropertyError::InvalidType) => {}
        _ => panic!("the wrong accessor must be refused"),
    }
    let other = Key::from_str("missing").unwrap();
    match map.get_int(&other, 0) {
        Err(MapPropertyError::KeyNotFound) => {}
        _ => panic!("a missing key must be reported"),
    }
}

#[test]
fn key_grammar() {
    assert!(Key::from_str("abc_DEF_123").is_ok());
    assert!(Key::from_str("").is_ok());
    assert!(Key::from_str("with space").is_err());
    assert!(Key::from_str("dash-ed").is_err());
    assert_eq!(
        Key::from_str("bad!").unwrap_err().message(),
        "Key is invalid. Only ascii alphanumeric or underscore is allowed."
    );
}

#[test]
fn empty_entries_carry_their_tag() {
    let mut map = VsMap::new();
    let key = Key::from_str("k").unwrap();
    map.set_empty(&key, VSPropertyType::Int);
    assert_eq!(map.len(), 1);
    assert_eq!(map.num_elements(&key).unwrap(), 0);
    assert_eq!(map.get_type(&key), VSPropertyType::Int);
    match map.get_int(&key, 0) {
        Err(MapPropertyError::IndexOutOfBound) => {}
        _ => panic!("an empty entry holds no values"),
    }
}

#[test]
fn duplicate_copies_values_and_gains_references() {
    let mut core = test_core();
    let mut map = VsMap::new();
    let k1 = Key::from_str("a").unwrap();
    let k2 = Key::from_str("b").unwrap();
    let k3 = Key::from_str("f").unwrap();
    map.set(&k1, Value::Int(5), AppendMode::Replace).unwrap();
    map.set(&k1, Value::Int(6), AppendMode::Append).unwrap();
    map.set(&k2, Value::Utf8("x".to_string()), AppendMode::Replace)
        .unwrap();
    let f = core.create_function();
    let fid = f.id();
    map.consume_function(&k3, f, AppendMode::Replace).unwrap();
    assert_eq!(core.ref_count(fid), 1);

    let dup = map.duplicate(&mut core);
    assert_eq!(core.ref_count(fid), 2, "the duplicate owns a fresh reference");
    assert_eq!(dup.len(), 3);
    assert_eq!(dup.get_int_array(&k1).unwrap(), vec![5, 6]);
    assert_eq!(dup.get_utf8(&k2, 0).unwrap(), "x");
    // The original is untouched.
    assert_eq!(map.get_int(&k1, 1).unwrap(), 6);
}
