use gron::input::InputType;
use gron::value::{KeyNode, ValueNode};
use gron::walk::{gron_plain, tokens_to_string};

#[test]
fn original_write_null() {
    assert_eq!(
        "json = null\n",
        gron_plain(InputType::Json, &ValueNode::Null, "json")
    );
}

#[test]
fn original_write_bool() {
    assert_eq!(
        "json = true\n",
        gron_plain(InputType::Json, &ValueNode::Bool(true), "json")
    );
    assert_eq!(
        "json = false\n",
        gron_plain(InputType::Json, &ValueNode::Bool(false), "json")
    );
}

#[test]
fn original_write_number() {
    assert_eq!(
        "json = 1\n",
        gron_plain(InputType::Json, &ValueNode::Number("1".into()), "json")
    );
    assert_eq!(
        "json = -1\n",
        gron_plain(InputType::Json, &ValueNode::Number("-1".into()), "json")
    );
}

#[test]
fn original_write_string() {
    assert_eq!(
        "json = \"\"\n",
        gron_plain(InputType::Json, &ValueNode::Str("".into()), "json")
    );
    assert_eq!(
        "json = \"1\"\n",
        gron_plain(InputType::Json, &ValueNode::Str("1".into()), "json")
    );
}

#[test]
fn original_write_array() {
    assert_eq!(
        "json = []\n",
        gron_plain(InputType::Json, &ValueNode::Array(vec![]), "json")
    );
}

#[test]
fn original_write_object() {
    assert_eq!(
        "json = {}\n",
        gron_plain(InputType::Json, &ValueNode::Object(vec![]), "json")
    );
}

#[test]
fn original_write_output() {
    let v = ValueNode::Object(vec![
        (
            KeyNode::Str("a".into()),
            ValueNode::Array(vec![
                ValueNode::Number("1".into()),
                ValueNode::Number("2".into()),
                ValueNode::Number("3".into()),
            ]),
        ),
        (KeyNode::Str("b".into()), ValueNode::Bool(true)),
        (KeyNode::Str("n".into()), ValueNode::Number("1".into())),
        (
            KeyNode::Str("o".into()),
            ValueNode::Object(vec![(KeyNode::Str("b".into()), ValueNode::Bool(false))]),
        ),
        (KeyNode::Str("s".into()), ValueNode::Str("1".into())),
    ]);

    assert_eq!(
        r#"json = {}
json.a = []
json.a[0] = 1
json.a[1] = 2
json.a[2] = 3
json.b = true
json.n = 1
json.o = {}
json.o.b = false
json.s = "1"
"#,
        gron_plain(InputType::Json, &v, "json")
    );
}

#[test]
fn tagged_node_at_same_depth() {
    let v = ValueNode::Tagged(
        "!Tag".into(),
        Box::new(ValueNode::Object(vec![(
            KeyNode::Str("a".into()),
            ValueNode::Number("1".into()),
        )])),
    );
    assert_eq!(
        "yaml = !Tag\nyaml = {}\nyaml.a = 1\n",
        gron_plain(InputType::Yaml, &v, "yaml")
    );
}

#[test]
fn tokens_concat_is_plain_text() {
    let s = r#"{"a": [1, true, null], "b": "x"}"#;
    let toks = InputType::Json.tokens(s).unwrap();
    let mut concat = String::new();
    for t in &toks {
        concat.push_str(&t.text);
    }
    assert_eq!(concat, tokens_to_string(&toks));
    assert_eq!(
        concat,
        gron_plain(
            InputType::Json,
            &InputType::Json.parse(s).unwrap(),
            "json"
        )
    );
}
