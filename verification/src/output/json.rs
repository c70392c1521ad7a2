//! The JSON writer's path vocabulary: the steps of a path expression and
//! the walk context that renders them. The same context serves JSON5, which
//! differs only in its root label.

use vstd::prelude::*;
use vstd::string::*;

use crate::walk::{append_index_text, append_key_text, path_text, StepV};

verus! {

/// One step of a JSON path expression.
#[derive(Debug, Clone)]
pub enum JsonPath {
    /// An array element, by index.
    Array(usize),
    /// An object entry, by key.
    Object(String),
}

/// The specification-level value of one step.
pub open spec fn json_step_v(p: JsonPath) -> StepV {
    match p {
        JsonPath::Array(n) => StepV::Index(n as int),
        JsonPath::Object(k) => StepV::Key(k@),
    }
}

pub open spec fn json_steps_v(p: Seq<JsonPath>) -> Seq<StepV> {
    p.map_values(|s: JsonPath| json_step_v(s))
}

/// A walk's state: the root namespace label and the current path.
#[derive(Debug)]
pub struct Context {
    pub root: String,
    pub path: Vec<JsonPath>,
}

impl Context {
    /// A fresh context rooted at `json`.
    pub fn new() -> (r: Self)
        ensures
            r.root@ == "json"@,
            r.path@ == Seq::<JsonPath>::empty(),
    {
        Self { root: String::from_str("json"), path: Vec::new() }
    }

    /// A fresh context rooted at `json5`.
    pub fn new_json5() -> (r: Self)
        ensures
            r.root@ == "json5"@,
            r.path@ == Seq::<JsonPath>::empty(),
    {
        Self { root: String::from_str("json5"), path: Vec::new() }
    }

    /// Renders the current path expression: the root label, then `[i]` for
    /// each array step and `.key` for each object step.
    pub fn path_string(&self) -> (r: String)
        ensures
            r@ == path_text(self.root@, json_steps_v(self.path@)),
    {
        let ghost sv: Seq<StepV> = json_steps_v(self.path@);
        let mut s = self.root.clone();
        proof {
            assert(sv.subrange(0, 0) =~= Seq::<StepV>::empty());
        }
        let mut i: usize = 0;
        while i < self.path.len()
            invariant
                0 <= i <= self.path.len(),
                sv == json_steps_v(self.path@),
                sv.len() == self.path@.len(),
                s@ == path_text(self.root@, sv.subrange(0, i as int)),
            decreases self.path.len() - i,
        {
            match &self.path[i] {
                JsonPath::Array(n) => append_index_text(&mut s, *n),
                JsonPath::Object(k) => append_key_text(&mut s, k),
            }
            proof {
                assert(sv.subrange(0, i + 1).drop_last() =~= sv.subrange(0, i as int));
                assert(sv.subrange(0, i + 1).last() == sv[i as int]);
            }
            i += 1;
        }
        proof {
            assert(sv.subrange(0, sv.len() as int) =~= sv);
        }
        s
    }
}

impl Default for Context {
    fn default() -> (r: Self)
        ensures
            r.root@ == "json"@,
            r.path@ == Seq::<JsonPath>::empty(),
    {
        Self::new()
    }
}

} // verus!
