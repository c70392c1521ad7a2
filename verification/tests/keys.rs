use gron::output::yaml::ToYamlKey;
use gron::value::KeyNode;

#[test]
fn string_keys_quoted_when_ambiguous() {
    assert_eq!("\"null\"", String::from("null").to_yaml_key());
    assert_eq!("\"on\"", String::from("on").to_yaml_key());
    assert_eq!("\"off\"", String::from("off").to_yaml_key());
    assert_eq!("\"true\"", String::from("true").to_yaml_key());
    assert_eq!("\"false\"", String::from("false").to_yaml_key());
    assert_eq!("\"123\"", String::from("123").to_yaml_key());
    assert_eq!("\"0012\"", String::from("0012").to_yaml_key());
}

#[test]
fn string_keys_quoted_on_punctuation() {
    assert_eq!("\"a b\"", String::from("a b").to_yaml_key());
    assert_eq!("\"a.b\"", String::from("a.b").to_yaml_key());
    assert_eq!("\"x-y\"", String::from("x-y").to_yaml_key());
    assert_eq!("\"-1\"", String::from("-1").to_yaml_key());
}

#[test]
fn plain_string_keys_unquoted() {
    assert_eq!("name", String::from("name").to_yaml_key());
    assert_eq!("abc123", String::from("abc123").to_yaml_key());
    assert_eq!("", String::from("").to_yaml_key());
    assert_eq!("nulls", String::from("nulls").to_yaml_key());
}

#[test]
fn digit_keys_follow_machine_integer_range() {
    // Fits a signed 64-bit integer: quoted.
    assert_eq!(
        "\"9223372036854775807\"",
        String::from("9223372036854775807").to_yaml_key()
    );
    // One past the largest signed 64-bit integer: no longer parses as one,
    // so it stays unquoted.
    assert_eq!(
        "9223372036854775808",
        String::from("9223372036854775808").to_yaml_key()
    );
}

#[test]
fn scalar_keys_render_bare() {
    assert_eq!("null", KeyNode::Null.to_yaml_key());
    assert_eq!("true", KeyNode::Bool(true).to_yaml_key());
    assert_eq!("false", KeyNode::Bool(false).to_yaml_key());
    assert_eq!("42", KeyNode::Number("42".into()).to_yaml_key());
}

#[test]
fn composite_keys_render_recursively() {
    let seq_key = vec![
        KeyNode::Number("1".into()),
        KeyNode::Str("a b".into()),
        KeyNode::Null,
    ];
    assert_eq!("[1, \"a b\", null]", seq_key.to_yaml_key());
    assert_eq!(
        "[1, \"a b\", null]",
        KeyNode::Sequence(seq_key).to_yaml_key()
    );

    let map_key = vec![
        (KeyNode::Str("k".into()), KeyNode::Number("1".into())),
        (KeyNode::Str("true".into()), KeyNode::Bool(true)),
    ];
    assert_eq!("{k: 1, \"true\": true}", map_key.to_yaml_key());
    assert_eq!(
        "{k: 1, \"true\": true}",
        KeyNode::Mapping(map_key).to_yaml_key()
    );

    let tagged = KeyNode::Tagged("!T".into(), Box::new(KeyNode::Str("v".into())));
    assert_eq!("!T v", tagged.to_yaml_key());
}
