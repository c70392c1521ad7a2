//! TOML input: parsing through the toml crate, behind a trusted wrapper.

use vstd::prelude::*;

use crate::input::{GronError, InputType, WriteGron};
use crate::output::Config;
use crate::value::{KeyNode, ValueNode};
use crate::walk::gron_plain;

verus! {

/// The toml crate's parsed tree, declared so the wrappers below can hold it.
#[verifier::external_type_specification]
#[verifier::external_body]
pub struct ExTomlValue(::toml::Value);

/// Whether the toml crate accepts this text as a TOML document.
pub uninterp spec fn toml_parses(s: Seq<char>) -> bool;

/// The tree the toml crate reads from this text. The parse is
/// deterministic — the same text always yields the same tree, table
/// entries iterating in the crate's fixed order — so the result is a
/// function of the text alone.
pub uninterp spec fn toml_doc(s: Seq<char>) -> ValueNode;

/// Converts a toml tree into the crate's own tree; integers, floats and
/// datetimes keep the textual form the toml crate prints, and all render
/// bare, so they share the numeric variant. Keys are always strings.
#[verifier::external_body]
fn node_of_toml(v: &::toml::Value) -> ValueNode {
    match v {
        ::toml::Value::String(s) => ValueNode::Str(s.clone()),
        ::toml::Value::Integer(n) => ValueNode::Number(n.to_string()),
        ::toml::Value::Float(x) => ValueNode::Number(x.to_string()),
        ::toml::Value::Boolean(b) => ValueNode::Bool(*b),
        ::toml::Value::Datetime(d) => ValueNode::Number(d.to_string()),
        ::toml::Value::Array(a) => ValueNode::Array(a.iter().map(node_of_toml).collect()),
        ::toml::Value::Table(t) => ValueNode::Object(
            t.iter().map(|(k, x)| (KeyNode::Str(k.clone()), node_of_toml(x))).collect(),
        ),
    }
}

/// Relies on toml::from_str: accepts exactly the valid TOML documents and
/// reads each into the one tree `toml_doc` names; on failure the parser's
/// message is returned.
#[verifier::external_body]
pub fn parse_toml(s: &str) -> (r: Result<ValueNode, String>)
    ensures
        r is Ok <==> toml_parses(s@),
        r is Ok ==> r->Ok_0 == toml_doc(s@),
{
    match ::toml::from_str::<::toml::Value>(s) {
        Ok(v) => Ok(node_of_toml(&v)),
        Err(e) => Err(e.to_string()),
    }
}

/// The TOML format.
#[derive(Debug)]
pub struct Toml;

impl WriteGron for Toml {
    open spec fn fmt() -> InputType {
        InputType::Toml
    }

    fn write_gron(s: &str, config: &Config) -> (r: Result<String, GronError>) {
        match parse_toml(s) {
            Ok(v) => Ok(gron_plain(InputType::Toml, &v, "toml")),
            Err(m) => Err(GronError::Deserialize(m)),
        }
    }
}

} // verus!
