//! JSON5 input: parsing through the json5 crate, which reads into the same
//! serde_json tree that plain JSON uses.

use vstd::prelude::*;

use crate::input::json::node_of_json;
use crate::input::{GronError, InputType, WriteGron};
use crate::output::Config;
use crate::value::ValueNode;
use crate::walk::gron_plain;

verus! {

/// Whether the json5 crate accepts this text as a JSON5 document.
pub uninterp spec fn json5_parses(s: Seq<char>) -> bool;

/// The tree the json5 crate reads from this text. The parse is
/// deterministic — the same text always yields the same tree, object
/// entries iterating in sorted key order — so the result is a function of
/// the text alone.
pub uninterp spec fn json5_doc(s: Seq<char>) -> ValueNode;

/// Relies on json5::from_str: accepts exactly the valid JSON5 texts and
/// reads each into the one tree `json5_doc` names; on failure the parser's
/// message is returned.
#[verifier::external_body]
pub fn parse_json5(s: &str) -> (r: Result<ValueNode, String>)
    ensures
        r is Ok <==> json5_parses(s@),
        r is Ok ==> r->Ok_0 == json5_doc(s@),
{
    match json5::from_str::<serde_json::Value>(s) {
        Ok(v) => Ok(node_of_json(&v)),
        Err(e) => Err(e.to_string()),
    }
}

/// The JSON5 format.
#[derive(Debug)]
pub struct Json5;

impl WriteGron for Json5 {
    open spec fn fmt() -> InputType {
        InputType::Json5
    }

    fn write_gron(s: &str, config: &Config) -> (r: Result<String, GronError>) {
        match parse_json5(s) {
            Ok(v) => Ok(gron_plain(InputType::Json5, &v, "json5")),
            Err(m) => Err(GronError::Deserialize(m)),
        }
    }
}

} // verus!
