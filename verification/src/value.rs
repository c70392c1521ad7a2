//! The format-independent tree that every supported document format is read
//! into before it is walked.

use vstd::prelude::*;

verus! {

/// One parsed document node. Numbers keep the textual form the parser
/// reported, so the integer/float distinction of the source format survives
/// without this crate doing any numeric interpretation of its own.
#[derive(Debug)]
pub enum ValueNode {
    Null,
    Bool(bool),
    /// A numeric scalar, held as its literal text (also used for TOML
    /// datetimes, which render bare exactly like numbers do).
    Number(String),
    Str(String),
    Array(Vec<ValueNode>),
    /// An object or mapping; entries keep the parser's iteration order.
    Object(Vec<(KeyNode, ValueNode)>),
    /// A type-tagged node (YAML `!Tag value`): the tag text and the value.
    Tagged(String, Box<ValueNode>),
}

/// A mapping key. JSON, JSON5 and TOML only ever produce `Str` keys; YAML
/// mapping keys may be any scalar or composite value, so the whole closed
/// variant is needed.
#[derive(Debug)]
pub enum KeyNode {
    Null,
    Bool(bool),
    Number(String),
    Str(String),
    Sequence(Vec<KeyNode>),
    Mapping(Vec<(KeyNode, KeyNode)>),
    Tagged(String, Box<KeyNode>),
}

impl ValueNode {
    /// True for the node kinds that have no children of their own.
    pub open spec fn is_leaf(self) -> bool {
        match self {
            ValueNode::Array(_) => false,
            ValueNode::Object(_) => false,
            ValueNode::Tagged(_, _) => false,
            _ => true,
        }
    }
}

} // verus!
