//! JSON input: parsing through serde_json, behind a trusted wrapper.

use vstd::prelude::*;

use crate::input::{GronError, InputType, WriteGron};
use crate::output::Config;
use crate::value::{KeyNode, ValueNode};
use crate::walk::gron_plain;

verus! {

/// serde_json's parsed tree, declared so the wrappers below can hold it.
#[verifier::external_type_specification]
#[verifier::external_body]
pub struct ExJsonValue(serde_json::Value);

/// Whether serde_json accepts this text as a JSON document.
pub uninterp spec fn json_parses(s: Seq<char>) -> bool;

/// The tree serde_json reads from this text. serde_json is deterministic —
/// the same text always yields the same tree, object entries iterating in
/// sorted key order — so the result is a function of the text alone.
pub uninterp spec fn json_doc(s: Seq<char>) -> ValueNode;

/// Converts a serde_json tree into the crate's own tree; numbers keep the
/// textual form serde_json prints, keys are always strings.
#[verifier::external_body]
pub(crate) fn node_of_json(v: &serde_json::Value) -> ValueNode {
    match v {
        serde_json::Value::Null => ValueNode::Null,
        serde_json::Value::Bool(b) => ValueNode::Bool(*b),
        serde_json::Value::Number(n) => ValueNode::Number(n.to_string()),
        serde_json::Value::String(s) => ValueNode::Str(s.clone()),
        serde_json::Value::Array(a) => ValueNode::Array(a.iter().map(node_of_json).collect()),
        serde_json::Value::Object(o) => ValueNode::Object(
            o.iter().map(|(k, x)| (KeyNode::Str(k.clone()), node_of_json(x))).collect(),
        ),
    }
}

/// Relies on serde_json::from_str: accepts exactly the valid JSON texts and
/// reads each into the one tree `json_doc` names; on failure the parser's
/// message is returned.
#[verifier::external_body]
pub fn parse_json(s: &str) -> (r: Result<ValueNode, String>)
    ensures
        r is Ok <==> json_parses(s@),
        r is Ok ==> r->Ok_0 == json_doc(s@),
{
    match serde_json::from_str::<serde_json::Value>(s) {
        Ok(v) => Ok(node_of_json(&v)),
        Err(e) => Err(e.to_string()),
    }
}

/// The JSON format.
#[derive(Debug)]
pub struct Json;

impl WriteGron for Json {
    open spec fn fmt() -> InputType {
        InputType::Json
    }

    fn write_gron(s: &str, config: &Config) -> (r: Result<String, GronError>) {
        match parse_json(s) {
            Ok(v) => Ok(gron_plain(InputType::Json, &v, "json")),
            Err(m) => Err(GronError::Deserialize(m)),
        }
    }
}

} // verus!
