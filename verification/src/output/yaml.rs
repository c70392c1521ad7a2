//! YAML-specific output pieces: the key normalizer that turns an arbitrary
//! mapping key into a path segment, quoting ambiguous string keys.
//!
//! A string key is quoted when it could be re-read as something other than a
//! plain string: the reserved words `null`, `on`, `off`, anything containing
//! a character that is not an ASCII letter or digit, anything that parses as
//! a machine integer, and the boolean words `true` and `false`.

use vstd::prelude::*;
use vstd::string::*;

use crate::text::{
    char_is_alnum, char_is_digit, digit_value, is_alnum, is_digit, str_eq,
};
use crate::value::KeyNode;
use crate::walk::{append_index_text, append_key_text, path_text, StepV};

verus! {

/// One step of a YAML path expression.
#[derive(Debug)]
pub enum YamlPath {
    /// A sequence element, by index.
    Array(usize),
    /// A mapping entry, by its normalized key.
    Mapping(String),
}

/// The specification-level value of one step.
pub open spec fn yaml_step_v(p: YamlPath) -> StepV {
    match p {
        YamlPath::Array(n) => StepV::Index(n as int),
        YamlPath::Mapping(k) => StepV::Key(k@),
    }
}

pub open spec fn yaml_steps_v(p: Seq<YamlPath>) -> Seq<StepV> {
    p.map_values(|s: YamlPath| yaml_step_v(s))
}

/// A YAML walk's state: the current path under the fixed `yaml` root.
#[derive(Debug)]
pub struct Context {
    pub path: Vec<YamlPath>,
}

impl Context {
    /// Renders the current path expression.
    pub fn path_string(&self) -> (r: String)
        ensures
            r@ == path_text("yaml"@, yaml_steps_v(self.path@)),
    {
        let ghost sv: Seq<StepV> = yaml_steps_v(self.path@);
        let mut s = String::from_str("yaml");
        proof {
            assert(sv.subrange(0, 0) =~= Seq::<StepV>::empty());
        }
        let mut i: usize = 0;
        while i < self.path.len()
            invariant
                0 <= i <= self.path.len(),
                sv == yaml_steps_v(self.path@),
                sv.len() == self.path@.len(),
                s@ == path_text("yaml"@, sv.subrange(0, i as int)),
            decreases self.path.len() - i,
        {
            match &self.path[i] {
                YamlPath::Array(n) => append_index_text(&mut s, *n),
                YamlPath::Mapping(k) => append_key_text(&mut s, k),
            }
            proof {
                assert(sv.subrange(0, i + 1).drop_last() =~= sv.subrange(0, i as int));
                assert(sv.subrange(0, i + 1).last() == sv[i as int]);
            }
            i += 1;
        }
        proof {
            assert(sv.subrange(0, sv.len() as int) =~= sv);
        }
        s
    }
}

impl Default for Context {
    fn default() -> (r: Self)
        ensures
            r.path@ == Seq::<YamlPath>::empty(),
    {
        Self { path: Vec::new() }
    }
}

/// Every character is an ASCII decimal digit.
pub open spec fn all_digits(s: Seq<char>) -> bool {
    forall|i: int| 0 <= i < s.len() ==> is_digit(s[i])
}

/// The number an all-digit string denotes (most significant digit first).
pub open spec fn digits_value(s: Seq<char>) -> nat
    decreases s.len(),
{
    if s.len() == 0 {
        0
    } else {
        digits_value(s.drop_last()) * 10 + digit_value(s.last())
    }
}

/// Extending an all-digit string never shrinks the number it denotes.
proof fn lemma_digits_value_prefix(s: Seq<char>, i: int)
    requires
        0 <= i <= s.len(),
    ensures
        digits_value(s) >= digits_value(s.subrange(0, i)),
    decreases s.len(),
{
    if i < s.len() {
        let t = s.drop_last();
        assert(s.subrange(0, i) =~= t.subrange(0, i));
        lemma_digits_value_prefix(t, i);
    } else {
        assert(s.subrange(0, i) =~= s);
    }
}

/// Whether the YAML normalizer must quote a string key to keep it reading as
/// a string. The integer clause mirrors a parse into a signed 64-bit machine
/// integer: all digits, and a value that fits.
pub open spec fn needs_quote(s: Seq<char>) -> bool {
    ||| s == "null"@
    ||| s == "on"@
    ||| s == "off"@
    ||| exists|i: int| 0 <= i < s.len() && !is_alnum(s[i])
    ||| s == "true"@
    ||| s == "false"@
    ||| (s.len() > 0 && all_digits(s) && digits_value(s) <= 0x7fff_ffff_ffff_ffff)
}

/// A key wrapped in double quotes.
pub open spec fn quoted(s: Seq<char>) -> Seq<char> {
    "\""@ + s + "\""@
}

/// How a string key renders as a path segment.
pub open spec fn str_key_text(s: Seq<char>) -> Seq<char> {
    if needs_quote(s) {
        quoted(s)
    } else {
        s
    }
}

/// How any YAML mapping key renders as a path segment.
pub open spec fn yaml_key_text(k: KeyNode) -> Seq<char>
    decreases k,
{
    match k {
        KeyNode::Null => "null"@,
        KeyNode::Bool(b) => if b {
            "true"@
        } else {
            "false"@
        },
        KeyNode::Number(s) => s@,
        KeyNode::Str(s) => str_key_text(s@),
        KeyNode::Sequence(ks) => "["@ + seq_key_text(ks@) + "]"@,
        KeyNode::Mapping(ps) => "{"@ + map_key_text(ps@) + "}"@,
        KeyNode::Tagged(tag, inner) => tag@ + " "@ + yaml_key_text(*inner),
    }
}

/// The comma-separated elements of a sequence key.
pub open spec fn seq_key_text(ks: Seq<KeyNode>) -> Seq<char>
    decreases ks,
{
    if ks.len() == 0 {
        Seq::<char>::empty()
    } else if ks.len() == 1 {
        yaml_key_text(ks[0])
    } else {
        seq_key_text(ks.drop_last()) + ", "@ + yaml_key_text(ks.last())
    }
}

/// The comma-separated `key: value` entries of a mapping key.
pub open spec fn map_key_text(ps: Seq<(KeyNode, KeyNode)>) -> Seq<char>
    decreases ps,
{
    if ps.len() == 0 {
        Seq::<char>::empty()
    } else if ps.len() == 1 {
        yaml_key_text(ps[0].0) + ": "@ + yaml_key_text(ps[0].1)
    } else {
        map_key_text(ps.drop_last()) + ", "@ + yaml_key_text(ps.last().0) + ": "@
            + yaml_key_text(ps.last().1)
    }
}

/// All digits, and the denoted value fits a signed 64-bit integer.
fn digits_fit(sl: &str) -> (r: bool)
    ensures
        r == (all_digits(sl@) && digits_value(sl@) <= 0x7fff_ffff_ffff_ffff),
{
    let n = sl.unicode_len();
    let mut i: usize = 0;
    let mut acc: u64 = 0;
    while i < n
        invariant
            0 <= i <= n,
            n == sl@.len(),
            all_digits(sl@.subrange(0, i as int)),
            acc == digits_value(sl@.subrange(0, i as int)),
            acc <= 0x7fff_ffff_ffff_ffff,
        decreases n - i,
    {
        let c = sl.get_char(i);
        if !char_is_digit(c) {
            assert(!all_digits(sl@));
            return false;
        }
        let d = ((c as u32) - 48) as u64;
        let wide: u128 = (acc as u128) * 10 + (d as u128);
        proof {
            assert(sl@.subrange(0, i + 1).drop_last() =~= sl@.subrange(0, i as int));
            assert(wide == digits_value(sl@.subrange(0, i + 1)));
        }
        if wide > 0x7fff_ffff_ffff_ffff {
            proof {
                if all_digits(sl@) {
                    lemma_digits_value_prefix(sl@, i + 1);
                }
            }
            return false;
        }
        acc = wide as u64;
        i += 1;
    }
    proof {
        assert(sl@.subrange(0, n as int) =~= sl@);
    }
    true
}

/// Whether the normalizer quotes this string key.
pub fn str_needs_quote(sl: &str) -> (r: bool)
    ensures
        r == needs_quote(sl@),
{
    if str_eq(sl, "null") || str_eq(sl, "on") || str_eq(sl, "off") || str_eq(sl, "true")
        || str_eq(sl, "false") {
        return true;
    }
    let n = sl.unicode_len();
    let mut i: usize = 0;
    while i < n
        invariant
            0 <= i <= n,
            n == sl@.len(),
            forall|j: int| 0 <= j < i ==> is_alnum(sl@[j]),
        decreases n - i,
    {
        if !char_is_alnum(sl.get_char(i)) {
            return true;
        }
        i += 1;
    }
    if n == 0 {
        return false;
    }
    digits_fit(sl)
}

/// Renders a string key, quoted exactly when `needs_quote` says so.
pub fn str_key_of(s: &String) -> (r: String)
    ensures
        r@ == str_key_text(s@),
{
    if str_needs_quote(s.as_str()) {
        let mut r = String::from_str("\"");
        r.append(s.as_str());
        r.append("\"");
        r
    } else {
        s.clone()
    }
}

/// Renders any YAML mapping key as a path segment.
pub fn yaml_key_of(k: &KeyNode) -> (r: String)
    ensures
        r@ == yaml_key_text(*k),
    decreases *k, 1int,
{
    match k {
        KeyNode::Null => String::from_str("null"),
        KeyNode::Bool(b) => if *b {
            String::from_str("true")
        } else {
            String::from_str("false")
        },
        KeyNode::Number(s) => s.clone(),
        KeyNode::Str(s) => str_key_of(s),
        KeyNode::Sequence(ks) => seq_key_of(ks),
        KeyNode::Mapping(ps) => map_key_of(ps),
        KeyNode::Tagged(tag, inner) => {
            let mut r = tag.clone();
            r.append(" ");
            let e = yaml_key_of(&**inner);
            r.append(e.as_str());
            r
        },
    }
}

/// Renders a sequence key as `[e1, e2, ...]`.
pub fn seq_key_of(ks: &Vec<KeyNode>) -> (r: String)
    ensures
        r@ == "["@ + seq_key_text(ks@) + "]"@,
    decreases ks@, 0int,
{
    let mut r = String::from_str("[");
    let mut i: usize = 0;
    while i < ks.len()
        invariant
            0 <= i <= ks.len(),
            r@ == "["@ + seq_key_text(ks@.subrange(0, i as int)),
        decreases ks@.len() - i,
    {
        if i > 0 {
            r.append(", ");
        }
        let e = yaml_key_of(&ks[i]);
        r.append(e.as_str());
        proof {
            assert(ks@.subrange(0, i + 1).drop_last() =~= ks@.subrange(0, i as int));
            assert(ks@.subrange(0, i + 1).last() == ks@[i as int]);
        }
        i += 1;
    }
    proof {
        assert(ks@.subrange(0, ks@.len() as int) =~= ks@);
    }
    r.append("]");
    r
}

/// Renders a mapping key as `{k1: v1, k2: v2, ...}`.
pub fn map_key_of(ps: &Vec<(KeyNode, KeyNode)>) -> (r: String)
    ensures
        r@ == "{"@ + map_key_text(ps@) + "}"@,
    decreases ps@, 0int,
{
    let mut r = String::from_str("{");
    let mut i: usize = 0;
    while i < ps.len()
        invariant
            0 <= i <= ps.len(),
            r@ == "{"@ + map_key_text(ps@.subrange(0, i as int)),
        decreases ps@.len() - i,
    {
        if i > 0 {
            r.append(", ");
        }
        let e = yaml_key_of(&ps[i].0);
        r.append(e.as_str());
        r.append(": ");
        let v = yaml_key_of(&ps[i].1);
        r.append(v.as_str());
        proof {
            assert(ps@.subrange(0, i + 1).drop_last() =~= ps@.subrange(0, i as int));
            assert(ps@.subrange(0, i + 1).last() == ps@[i as int]);
        }
        i += 1;
    }
    proof {
        assert(ps@.subrange(0, ps@.len() as int) =~= ps@);
    }
    r.append("}");
    r
}

/// The key normalizer interface: anything that can
/// stand as a YAML mapping key can render itself as a path segment.
pub trait ToYamlKey {
    /// What the rendering returns.
    spec fn yaml_key_spec(&self) -> Seq<char>;

    fn to_yaml_key(&self) -> (r: String)
        ensures
            r@ == self.yaml_key_spec(),
    ;
}

impl ToYamlKey for KeyNode {
    open spec fn yaml_key_spec(&self) -> Seq<char> {
        yaml_key_text(*self)
    }

    fn to_yaml_key(&self) -> (r: String) {
        yaml_key_of(self)
    }
}

impl ToYamlKey for String {
    open spec fn yaml_key_spec(&self) -> Seq<char> {
        str_key_text(self@)
    }

    fn to_yaml_key(&self) -> (r: String) {
        str_key_of(self)
    }
}

/// A sequence used as a mapping key.
impl ToYamlKey for Vec<KeyNode> {
    open spec fn yaml_key_spec(&self) -> Seq<char> {
        "["@ + seq_key_text(self@) + "]"@
    }

    fn to_yaml_key(&self) -> (r: String) {
        seq_key_of(self)
    }
}

/// A mapping used as a mapping key.
impl ToYamlKey for Vec<(KeyNode, KeyNode)> {
    open spec fn yaml_key_spec(&self) -> Seq<char> {
        "{"@ + map_key_text(self@) + "}"@
    }

    fn to_yaml_key(&self) -> (r: String) {
        map_key_of(self)
    }
}

/// A key containing a character that is not an ASCII letter or digit always
/// renders quoted.
pub proof fn lemma_key_quoted_non_alnum(s: Seq<char>)
    requires
        exists|i: int| 0 <= i < s.len() && !is_alnum(s[i]),
    ensures
        str_key_text(s) == quoted(s),
{
}

/// The reserved scalar words, the boolean words, and any all-digit key whose
/// value fits a signed 64-bit integer always render quoted.
pub proof fn lemma_key_quoted_ambiguous(s: Seq<char>)
    requires
        s == "null"@ || s == "on"@ || s == "off"@ || s == "true"@ || s == "false"@ || (s.len() > 0
            && all_digits(s) && digits_value(s) <= 0x7fff_ffff_ffff_ffff),
    ensures
        str_key_text(s) == quoted(s),
{
}

/// A plain alphanumeric key that matches none of the ambiguous forms renders
/// verbatim, unquoted.
pub proof fn lemma_key_plain(s: Seq<char>)
    requires
        forall|i: int| 0 <= i < s.len() ==> is_alnum(s[i]),
        s != "null"@,
        s != "on"@,
        s != "off"@,
        s != "true"@,
        s != "false"@,
        !(all_digits(s) && digits_value(s) <= 0x7fff_ffff_ffff_ffff),
    ensures
        str_key_text(s) == s,
{
}

} // verus!
