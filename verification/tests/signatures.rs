//! The signature grammar: type words, rendered declarations, and argument
//! validation.

use vapoursynth4_rs::key::Key;
use vapoursynth4_rs::map::{AppendMode, Value, VsMap};
use vapoursynth4_rs::plugin::{render_signature, validate_args, ArgSpec, Type, TypeBuilder};

#[test]
fn to_args_words() {
    assert_eq!(Type::Int.to_args(), "int");
    assert_eq!(Type::Float.to_args(), "float");
    assert_eq!(Type::Data.to_args(), "data");
    assert_eq!(Type::ANode.to_args(), "anode");
    assert_eq!(Type::VNode.to_args(), "vnode");
    assert_eq!(Type::AFrame.to_args(), "aframe");
    assert_eq!(Type::VFrame.to_args(), "vframe");
    assert_eq!(Type::Func.to_args(), "func");
    assert_eq!(Type::Array(Box::new(Type::Int)).to_args(), "int[]");
    assert_eq!(
        Type::Array(Box::new(Type::Array(Box::new(Type::VNode)))).to_args(),
        "vnode[][]"
    );
}

#[test]
fn rendered_signatures() {
    let args = vec![
        ArgSpec::new(Key::from_str("clip").unwrap(), Type::VNode, false),
        ArgSpec::new(Key::from_str("bits").unwrap(), Type::Int, true),
    ];
    assert_eq!(render_signature(&args), "clip:vnode;bits:int:opt;");
    assert_eq!(render_signature(&Vec::new()), "");
}

#[test]
fn argument_validation() {
    let args = vec![
        ArgSpec::new(Key::from_str("clip").unwrap(), Type::Int, false),
        ArgSpec::new(Key::from_str("bits").unwrap(), Type::Int, true),
    ];
    let clip = Key::from_str("clip").unwrap();
    let bits = Key::from_str("bits").unwrap();
    let extra = Key::from_str("extra").unwrap();

    let mut m = VsMap::new();
    m.set(&clip, Value::Int(1), AppendMode::Replace).unwrap();
    assert!(validate_args(&args, &m));

    m.set(&bits, Value::Int(10), AppendMode::Replace).unwrap();
    assert!(validate_args(&args, &m));

    m.set(&extra, Value::Int(1), AppendMode::Replace).unwrap();
    assert!(!validate_args(&args, &m), "an undeclared key must be refused");
    m.delete_key(&extra);

    m.set(&bits, Value::Utf8("x".to_string()), AppendMode::Replace)
        .unwrap();
    assert!(!validate_args(&args, &m), "a mismatched tag must be refused");
    m.delete_key(&bits);

    m.delete_key(&clip);
    assert!(
        !validate_args(&args, &m),
        "a missing required argument must be refused"
    );
}

#[test]
fn type_builder_collects_declarations() {
    let mut b = TypeBuilder::new();
    b.add(Key::from_str("clip").unwrap(), Type::VNode, false);
    b.add(Key::from_str("bits").unwrap(), Type::Int, true);
    let args = b.build();
    assert_eq!(render_signature(&args), "clip:vnode;bits:int:opt;");
}
