//! YAML input: parsing through serde_yaml, behind a trusted wrapper. YAML
//! is the one format whose mapping keys may themselves be composite values,
//! so its converter also builds key trees.

use vstd::prelude::*;

use crate::input::{GronError, InputType, WriteGron};
use crate::output::Config;
use crate::value::{KeyNode, ValueNode};
use crate::walk::gron_plain;

verus! {

/// serde_yaml's parsed tree, declared so the wrappers below can hold it.
#[verifier::external_type_specification]
#[verifier::external_body]
pub struct ExYamlValue(serde_yaml::Value);

/// Whether serde_yaml accepts this text as a YAML document.
pub uninterp spec fn yaml_parses(s: Seq<char>) -> bool;

/// The tree serde_yaml reads from this text. The parse is deterministic —
/// the same text always yields the same tree, mapping entries iterating in
/// document order — so the result is a function of the text alone.
pub uninterp spec fn yaml_doc(s: Seq<char>) -> ValueNode;

/// Converts a serde_yaml value standing as a mapping key into a key tree;
/// numbers keep the textual form serde_yaml prints, tags print as `!Tag`.
#[verifier::external_body]
fn key_of_yaml(v: &serde_yaml::Value) -> KeyNode {
    match v {
        serde_yaml::Value::Null => KeyNode::Null,
        serde_yaml::Value::Bool(b) => KeyNode::Bool(*b),
        serde_yaml::Value::Number(n) => KeyNode::Number(n.to_string()),
        serde_yaml::Value::String(s) => KeyNode::Str(s.clone()),
        serde_yaml::Value::Sequence(a) => KeyNode::Sequence(a.iter().map(key_of_yaml).collect()),
        serde_yaml::Value::Mapping(m) => KeyNode::Mapping(
            m.iter().map(|(k, x)| (key_of_yaml(k), key_of_yaml(x))).collect(),
        ),
        serde_yaml::Value::Tagged(t) => KeyNode::Tagged(
            t.tag.to_string(),
            Box::new(key_of_yaml(&t.value)),
        ),
    }
}

/// Converts a serde_yaml tree into the crate's own tree.
#[verifier::external_body]
fn node_of_yaml(v: &serde_yaml::Value) -> ValueNode {
    match v {
        serde_yaml::Value::Null => ValueNode::Null,
        serde_yaml::Value::Bool(b) => ValueNode::Bool(*b),
        serde_yaml::Value::Number(n) => ValueNode::Number(n.to_string()),
        serde_yaml::Value::String(s) => ValueNode::Str(s.clone()),
        serde_yaml::Value::Sequence(a) => ValueNode::Array(a.iter().map(node_of_yaml).collect()),
        serde_yaml::Value::Mapping(m) => ValueNode::Object(
            m.iter().map(|(k, x)| (key_of_yaml(k), node_of_yaml(x))).collect(),
        ),
        serde_yaml::Value::Tagged(t) => ValueNode::Tagged(
            t.tag.to_string(),
            Box::new(node_of_yaml(&t.value)),
        ),
    }
}

/// Relies on serde_yaml::from_str: accepts exactly the valid YAML documents
/// and reads each into the one tree `yaml_doc` names; on failure the
/// parser's message is returned.
#[verifier::external_body]
pub fn parse_yaml(s: &str) -> (r: Result<ValueNode, String>)
    ensures
        r is Ok <==> yaml_parses(s@),
        r is Ok ==> r->Ok_0 == yaml_doc(s@),
{
    match serde_yaml::from_str::<serde_yaml::Value>(s) {
        Ok(v) => Ok(node_of_yaml(&v)),
        Err(e) => Err(e.to_string()),
    }
}

/// The YAML format.
#[derive(Debug)]
pub struct Yaml;

impl WriteGron for Yaml {
    open spec fn fmt() -> InputType {
        InputType::Yaml
    }

    fn write_gron(s: &str, config: &Config) -> (r: Result<String, GronError>) {
        match parse_yaml(s) {
            Ok(v) => Ok(gron_plain(InputType::Yaml, &v, "yaml")),
            Err(m) => Err(GronError::Deserialize(m)),
        }
    }
}

} // verus!
