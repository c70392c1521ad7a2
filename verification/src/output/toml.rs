//! The TOML writer's path vocabulary, rooted at `toml`.

use vstd::prelude::*;
use vstd::string::*;

use crate::walk::{append_index_text, append_key_text, path_text, StepV};

verus! {

/// One step of a TOML path expression.
#[derive(Debug)]
pub enum TomlPath {
    /// An array element, by index.
    Array(usize),
    /// A table entry, by key.
    Object(String),
}

/// The specification-level value of one step.
pub open spec fn toml_step_v(p: TomlPath) -> StepV {
    match p {
        TomlPath::Array(n) => StepV::Index(n as int),
        TomlPath::Object(k) => StepV::Key(k@),
    }
}

pub open spec fn toml_steps_v(p: Seq<TomlPath>) -> Seq<StepV> {
    p.map_values(|s: TomlPath| toml_step_v(s))
}

/// A TOML walk's state: the current path under the fixed `toml` root.
#[derive(Debug)]
pub struct Context {
    pub path: Vec<TomlPath>,
}

impl Context {
    /// Renders the current path expression.
    pub fn path_string(&self) -> (r: String)
        ensures
            r@ == path_text("toml"@, toml_steps_v(self.path@)),
    {
        let ghost sv: Seq<StepV> = toml_steps_v(self.path@);
        let mut s = String::from_str("toml");
        proof {
            assert(sv.subrange(0, 0) =~= Seq::<StepV>::empty());
        }
        let mut i: usize = 0;
        while i < self.path.len()
            invariant
                0 <= i <= self.path.len(),
                sv == toml_steps_v(self.path@),
                sv.len() == self.path@.len(),
                s@ == path_text("toml"@, sv.subrange(0, i as int)),
            decreases self.path.len() - i,
        {
            match &self.path[i] {
                TomlPath::Array(n) => append_index_text(&mut s, *n),
                TomlPath::Object(k) => append_key_text(&mut s, k),
            }
            proof {
                assert(sv.subrange(0, i + 1).drop_last() =~= sv.subrange(0, i as int));
                assert(sv.subrange(0, i + 1).last() == sv[i as int]);
            }
            i += 1;
        }
        proof {
            assert(sv.subrange(0, sv.len() as int) =~= sv);
        }
        s
    }
}

impl Default for Context {
    fn default() -> (r: Self)
        ensures
            r.path@ == Seq::<TomlPath>::empty(),
    {
        Self { path: Vec::new() }
    }
}

} // verus!
