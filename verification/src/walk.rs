//! The generic walker: one recursive algorithm takes any parsed tree,
//! tracks the path taken from the root, and emits one output record per
//! node — the container's own line first, then its children in source order.
//!
//! The specification model is a sequence of *observations* (`ObsV`): one per
//! visited node, carrying the path steps to the node and the literal text of
//! its record. Rendered output is a flat sequence of classed tokens, so a
//! color-capable sink can tint each token while the plain text is exactly
//! the concatenation of the token texts.

use vstd::prelude::*;
use vstd::string::*;

use crate::input::InputType;
use crate::output::yaml::yaml_key_of;
use crate::output::yaml::yaml_key_text;
use crate::text::dec_text;
use crate::text::u64_to_string;
use crate::value::KeyNode;
use crate::value::ValueNode;

verus! {

/// One step of the path from the document root to a node.
#[derive(Debug)]
pub enum PathStep {
    /// An array element, by zero-based index.
    ArrayIndex(usize),
    /// An object or mapping entry, by its normalized key text.
    ObjectKey(String),
}

/// The specification-level value of a path step.
pub enum StepV {
    Index(int),
    Key(Seq<char>),
}

pub open spec fn step_v(s: PathStep) -> StepV {
    match s {
        PathStep::ArrayIndex(i) => StepV::Index(i as int),
        PathStep::ObjectKey(k) => StepV::Key(k@),
    }
}

pub open spec fn steps_v(p: Seq<PathStep>) -> Seq<StepV> {
    p.map_values(|s: PathStep| step_v(s))
}

/// The classes of output text a color-capable renderer may tint
/// differently; `Plain` text is never tinted.
#[derive(Debug, Clone, Copy, PartialEq, Eq, Structural)]
pub enum TokenClass {
    /// The root namespace label and object keys.
    Namespace,
    /// Brackets around array indices and the empty-container markers.
    Bracket,
    Number,
    Str,
    Bool,
    Null,
    Plain,
}

/// One piece of rendered output together with its color class.
#[derive(Debug)]
pub struct Token {
    pub class: TokenClass,
    pub text: String,
}

/// The specification-level value of a token.
pub struct TokenV {
    pub class: TokenClass,
    pub text: Seq<char>,
}

pub open spec fn token_v(t: Token) -> TokenV {
    TokenV { class: t.class, text: t.text@ }
}

pub open spec fn tokens_v(ts: Seq<Token>) -> Seq<TokenV> {
    ts.map_values(|t: Token| token_v(t))
}

/// One observation: the record the walker emits for one visited node.
pub struct ObsV {
    /// The path steps from the document root to the node.
    pub steps: Seq<StepV>,
    /// The color class of the literal.
    pub class: TokenClass,
    /// The literal text of the record (for containers, the empty marker).
    pub literal: Seq<char>,
}

/// The rendered text of one path step: `[i]` for an index, `.key` for a key.
pub open spec fn step_text(s: StepV) -> Seq<char> {
    match s {
        StepV::Index(i) => "["@ + dec_text(i as nat) + "]"@,
        StepV::Key(k) => "."@ + k,
    }
}

/// The rendered text of a whole path: the root label, then each step.
pub open spec fn path_text(root: Seq<char>, p: Seq<StepV>) -> Seq<char>
    decreases p,
{
    if p.len() == 0 {
        root
    } else {
        path_text(root, p.drop_last()) + step_text(p.last())
    }
}

/// The tokens of one path step, each piece under its color class.
pub open spec fn step_tokens(s: StepV) -> Seq<TokenV> {
    match s {
        StepV::Index(i) => seq![
            TokenV { class: TokenClass::Bracket, text: "["@ },
            TokenV { class: TokenClass::Number, text: dec_text(i as nat) },
            TokenV { class: TokenClass::Bracket, text: "]"@ },
        ],
        StepV::Key(k) => seq![
            TokenV { class: TokenClass::Plain, text: "."@ },
            TokenV { class: TokenClass::Namespace, text: k },
        ],
    }
}

/// The tokens of a whole path.
pub open spec fn path_tokens(root: Seq<char>, p: Seq<StepV>) -> Seq<TokenV>
    decreases p,
{
    if p.len() == 0 {
        seq![TokenV { class: TokenClass::Namespace, text: root }]
    } else {
        path_tokens(root, p.drop_last()) + step_tokens(p.last())
    }
}

/// The tokens of one whole output line: path, ` = `, literal, newline.
pub open spec fn obs_tokens(root: Seq<char>, o: ObsV) -> Seq<TokenV> {
    path_tokens(root, o.steps) + seq![
        TokenV { class: TokenClass::Plain, text: " = "@ },
        TokenV { class: o.class, text: o.literal },
        TokenV { class: TokenClass::Plain, text: "\n"@ },
    ]
}

/// The tokens of a sequence of observations, in order.
pub open spec fn all_tokens(root: Seq<char>, obs: Seq<ObsV>) -> Seq<TokenV>
    decreases obs,
{
    if obs.len() == 0 {
        Seq::<TokenV>::empty()
    } else {
        all_tokens(root, obs.drop_last()) + obs_tokens(root, obs.last())
    }
}

/// The concatenated text of a token sequence.
pub open spec fn tokens_text(ts: Seq<TokenV>) -> Seq<char>
    decreases ts,
{
    if ts.len() == 0 {
        Seq::<char>::empty()
    } else {
        tokens_text(ts.drop_last()) + ts.last().text
    }
}

pub proof fn lemma_tokens_text_concat(a: Seq<TokenV>, b: Seq<TokenV>)
    ensures
        tokens_text(a + b) == tokens_text(a) + tokens_text(b),
    decreases b,
{
    if b.len() == 0 {
        assert(a + b =~= a);
    } else {
        lemma_tokens_text_concat(a, b.drop_last());
        assert((a + b).drop_last() =~= a + b.drop_last());
        assert((a + b).last() == b.last());
        assert(tokens_text(a) + (tokens_text(b.drop_last()) + b.last().text) =~= (tokens_text(a)
            + tokens_text(b.drop_last())) + b.last().text);
    }
}

pub proof fn lemma_all_tokens_concat(root: Seq<char>, a: Seq<ObsV>, b: Seq<ObsV>)
    ensures
        all_tokens(root, a + b) == all_tokens(root, a) + all_tokens(root, b),
    decreases b,
{
    if b.len() == 0 {
        assert(a + b =~= a);
        assert(all_tokens(root, a) + Seq::<TokenV>::empty() =~= all_tokens(root, a));
    } else {
        lemma_all_tokens_concat(root, a, b.drop_last());
        assert((a + b).drop_last() =~= a + b.drop_last());
        assert((a + b).last() == b.last());
        assert(all_tokens(root, a) + (all_tokens(root, b.drop_last()) + obs_tokens(root, b.last()))
            =~= (all_tokens(root, a) + all_tokens(root, b.drop_last())) + obs_tokens(
            root,
            b.last(),
        ));
    }
}

proof fn lemma_step_tokens_text(s: StepV)
    ensures
        tokens_text(step_tokens(s)) == step_text(s),
{
    reveal_with_fuel(tokens_text, 5);
    match s {
        StepV::Index(i) => {
            let ts = step_tokens(s);
            assert(ts.drop_last().drop_last() =~= seq![
                TokenV { class: TokenClass::Bracket, text: "["@ },
            ]);
            assert(ts.drop_last().drop_last().drop_last() =~= Seq::<TokenV>::empty());
            assert(tokens_text(step_tokens(s)) =~= step_text(s));
        },
        StepV::Key(k) => {
            let ts = step_tokens(s);
            assert(ts.drop_last() =~= seq![TokenV { class: TokenClass::Plain, text: "."@ }]);
            assert(ts.drop_last().drop_last() =~= Seq::<TokenV>::empty());
            assert(tokens_text(step_tokens(s)) =~= step_text(s));
        },
    }
}

/// Rendering the tokens of a path gives exactly its path text.
pub proof fn lemma_path_tokens_text(root: Seq<char>, p: Seq<StepV>)
    ensures
        tokens_text(path_tokens(root, p)) == path_text(root, p),
    decreases p,
{
    if p.len() == 0 {
        reveal_with_fuel(tokens_text, 3);
        let ts = path_tokens(root, p);
        assert(ts.drop_last() =~= Seq::<TokenV>::empty());
        assert(tokens_text(ts) =~= root);
    } else {
        lemma_path_tokens_text(root, p.drop_last());
        lemma_tokens_text_concat(path_tokens(root, p.drop_last()), step_tokens(p.last()));
        lemma_step_tokens_text(p.last());
    }
}

/// One observation renders as exactly one output line: the path text,
/// ` = `, the literal, and a newline — nothing more, nothing less.
pub proof fn lemma_obs_line_text(root: Seq<char>, o: ObsV)
    ensures
        tokens_text(obs_tokens(root, o)) == path_text(root, o.steps) + " = "@ + o.literal + "\n"@,
{
    lemma_path_tokens_text(root, o.steps);
    let tail = seq![
        TokenV { class: TokenClass::Plain, text: " = "@ },
        TokenV { class: o.class, text: o.literal },
        TokenV { class: TokenClass::Plain, text: "\n"@ },
    ];
    lemma_tokens_text_concat(path_tokens(root, o.steps), tail);
    reveal_with_fuel(tokens_text, 5);
    assert(tail.drop_last().drop_last() =~= seq![
        TokenV { class: TokenClass::Plain, text: " = "@ },
    ]);
    assert(tail.drop_last().drop_last().drop_last() =~= Seq::<TokenV>::empty());
    assert(tokens_text(tail) =~= " = "@ + o.literal + "\n"@);
    assert(tokens_text(obs_tokens(root, o)) =~= path_text(root, o.steps) + " = "@ + o.literal
        + "\n"@);
}

/// The color class of the literal a node's record carries.
pub open spec fn literal_class(v: ValueNode) -> TokenClass {
    match v {
        ValueNode::Null => TokenClass::Null,
        ValueNode::Bool(_) => TokenClass::Bool,
        ValueNode::Number(_) => TokenClass::Number,
        ValueNode::Str(_) => TokenClass::Str,
        ValueNode::Array(_) => TokenClass::Bracket,
        ValueNode::Object(_) => TokenClass::Bracket,
        ValueNode::Tagged(_, _) => TokenClass::Plain,
    }
}

/// The literal text of a node's record: scalars verbatim (strings in double
/// quotes, content unescaped), containers as their empty marker, tagged
/// nodes as the tag itself.
pub open spec fn literal_text(v: ValueNode) -> Seq<char> {
    match v {
        ValueNode::Null => "null"@,
        ValueNode::Bool(b) => if b {
            "true"@
        } else {
            "false"@
        },
        ValueNode::Number(s) => s@,
        ValueNode::Str(s) => "\""@ + s@ + "\""@,
        ValueNode::Array(_) => "[]"@,
        ValueNode::Object(_) => "{}"@,
        ValueNode::Tagged(tag, _) => tag@,
    }
}

/// How a mapping key renders as a path segment under each format. YAML
/// applies its quoting normalizer; the other formats only ever produce
/// string keys and render them verbatim (a composite key cannot arise there,
/// so the general rendering serves as the total fallback).
pub open spec fn key_text(fmt: InputType, k: KeyNode) -> Seq<char> {
    if fmt == InputType::Yaml {
        yaml_key_text(k)
    } else {
        match k {
            KeyNode::Str(s) => s@,
            _ => yaml_key_text(k),
        }
    }
}

/// The walker's observation stream for one node: the node's own record,
/// then every descendant's, children in source order.
pub open spec fn observations(fmt: InputType, v: ValueNode, p: Seq<StepV>) -> Seq<ObsV>
    decreases v, 1int,
{
    seq![ObsV { steps: p, class: literal_class(v), literal: literal_text(v) }] + children_obs(
        fmt,
        v,
        p,
    )
}

/// The observation streams of a node's children, concatenated in order.
/// A tagged node's single child sits at the same path depth: the tag is not
/// itself a path step.
pub open spec fn children_obs(fmt: InputType, v: ValueNode, p: Seq<StepV>) -> Seq<ObsV>
    decreases v, 0int,
{
    match v {
        ValueNode::Array(xs) => arr_obs(fmt, xs@, p, xs@.len() as int),
        ValueNode::Object(es) => obj_obs(fmt, es@, p, es@.len() as int),
        ValueNode::Tagged(_, inner) => observations(fmt, *inner, p),
        _ => Seq::<ObsV>::empty(),
    }
}

/// The observations of the first `n` elements of an array.
pub open spec fn arr_obs(fmt: InputType, es: Seq<ValueNode>, p: Seq<StepV>, n: int) -> Seq<ObsV>
    decreases es, n,
{
    if n <= 0 || n > es.len() {
        Seq::<ObsV>::empty()
    } else {
        arr_obs(fmt, es, p, n - 1) + observations(fmt, es[n - 1], p.push(StepV::Index(n - 1)))
    }
}

/// The observations of the first `n` entries of an object or mapping.
pub open spec fn obj_obs(
    fmt: InputType,
    es: Seq<(KeyNode, ValueNode)>,
    p: Seq<StepV>,
    n: int,
) -> Seq<ObsV>
    decreases es, n,
{
    if n <= 0 || n > es.len() {
        Seq::<ObsV>::empty()
    } else {
        obj_obs(fmt, es, p, n - 1) + observations(
            fmt,
            es[n - 1].1,
            p.push(StepV::Key(key_text(fmt, es[n - 1].0))),
        )
    }
}

/// The full plain-text output for one document under one format: the text
/// of every token of every observation, starting from an empty path.
pub open spec fn gron_text(fmt: InputType, v: ValueNode, root: Seq<char>) -> Seq<char> {
    tokens_text(all_tokens(root, observations(fmt, v, Seq::<StepV>::empty())))
}

fn tok(class: TokenClass, text: &str) -> (t: Token)
    ensures
        token_v(t) == (TokenV { class, text: text@ }),
{
    Token { class, text: String::from_str(text) }
}

/// The token for one node's literal.
fn literal_token(v: &ValueNode) -> (t: Token)
    ensures
        token_v(t) == (TokenV { class: literal_class(*v), text: literal_text(*v) }),
{
    match v {
        ValueNode::Null => tok(TokenClass::Null, "null"),
        ValueNode::Bool(b) => if *b {
            tok(TokenClass::Bool, "true")
        } else {
            tok(TokenClass::Bool, "false")
        },
        ValueNode::Number(s) => Token { class: TokenClass::Number, text: s.clone() },
        ValueNode::Str(s) => {
            let mut r = String::from_str("\"");
            r.append(s.as_str());
            r.append("\"");
            Token { class: TokenClass::Str, text: r }
        },
        ValueNode::Array(_) => tok(TokenClass::Bracket, "[]"),
        ValueNode::Object(_) => tok(TokenClass::Bracket, "{}"),
        ValueNode::Tagged(tag, _) => Token { class: TokenClass::Plain, text: tag.clone() },
    }
}

/// The path segment a mapping key contributes under the given format.
pub fn key_label(fmt: InputType, k: &KeyNode) -> (r: String)
    ensures
        r@ == key_text(fmt, *k),
{
    match fmt {
        InputType::Yaml => yaml_key_of(k),
        _ => match k {
            KeyNode::Str(s) => s.clone(),
            _ => yaml_key_of(k),
        },
    }
}

/// Appends the tokens of the current path: the root label, then each step.
fn emit_path_tokens(root: &str, path: &Vec<PathStep>, out: &mut Vec<Token>)
    ensures
        tokens_v(final(out)@) == tokens_v(old(out)@) + path_tokens(root@, steps_v(path@)),
{
    let ghost t0: Seq<TokenV> = tokens_v(out@);
    let ghost sp: Seq<StepV> = steps_v(path@);
    out.push(Token { class: TokenClass::Namespace, text: String::from_str(root) });
    proof {
        assert(tokens_v(out@) =~= t0 + path_tokens(root@, sp.subrange(0, 0)));
    }
    let mut i: usize = 0;
    while i < path.len()
        invariant
            0 <= i <= path.len(),
            sp == steps_v(path@),
            sp.len() == path@.len(),
            tokens_v(out@) == t0 + path_tokens(root@, sp.subrange(0, i as int)),
        decreases path.len() - i,
    {
        let ghost tprev: Seq<TokenV> = tokens_v(out@);
        match &path[i] {
            PathStep::ArrayIndex(n) => {
                out.push(tok(TokenClass::Bracket, "["));
                out.push(Token { class: TokenClass::Number, text: u64_to_string(*n as u64) });
                out.push(tok(TokenClass::Bracket, "]"));
                proof {
                    assert(tokens_v(out@) =~= tprev + step_tokens(sp[i as int]));
                }
            },
            PathStep::ObjectKey(k) => {
                out.push(tok(TokenClass::Plain, "."));
                out.push(Token { class: TokenClass::Namespace, text: k.clone() });
                proof {
                    assert(tokens_v(out@) =~= tprev + step_tokens(sp[i as int]));
                }
            },
        }
        proof {
            assert(sp.subrange(0, i + 1).drop_last() =~= sp.subrange(0, i as int));
            assert(sp.subrange(0, i + 1).last() == sp[i as int]);
            assert(tokens_v(out@) =~= t0 + path_tokens(root@, sp.subrange(0, i + 1)));
        }
        i += 1;
    }
    proof {
        assert(sp.subrange(0, sp.len() as int) =~= sp);
    }
}

/// The generic walker. Emits the record for `v` at the current path, then
/// walks its children in source order, pushing and popping one path step
/// around each child; the path always leaves exactly as it came.
pub fn write_output(
    fmt: InputType,
    v: &ValueNode,
    root: &str,
    path: &mut Vec<PathStep>,
    out: &mut Vec<Token>,
)
    ensures
        final(path)@ == old(path)@,
        tokens_v(final(out)@) == tokens_v(old(out)@) + all_tokens(
            root@,
            observations(fmt, *v, steps_v(old(path)@)),
        ),
    decreases *v, 1int,
{
    let ghost t0: Seq<TokenV> = tokens_v(out@);
    let ghost sp: Seq<StepV> = steps_v(path@);
    let ghost head: ObsV = ObsV {
        steps: sp,
        class: literal_class(*v),
        literal: literal_text(*v),
    };
    emit_path_tokens(root, path, out);
    let ghost tp: Seq<TokenV> = tokens_v(out@);
    out.push(tok(TokenClass::Plain, " = "));
    proof {
        assert(tokens_v(out@) =~= tp.push(TokenV { class: TokenClass::Plain, text: " = "@ }));
    }
    let ghost tq: Seq<TokenV> = tokens_v(out@);
    out.push(literal_token(v));
    proof {
        assert(tokens_v(out@) =~= tq.push(TokenV { class: head.class, text: head.literal }));
    }
    let ghost tr: Seq<TokenV> = tokens_v(out@);
    out.push(tok(TokenClass::Plain, "\n"));
    proof {
        assert(tokens_v(out@) =~= tr.push(TokenV { class: TokenClass::Plain, text: "\n"@ }));
        assert(obs_tokens(root@, head) == path_tokens(root@, sp) + seq![
            TokenV { class: TokenClass::Plain, text: " = "@ },
            TokenV { class: head.class, text: head.literal },
            TokenV { class: TokenClass::Plain, text: "\n"@ },
        ]);
        assert(tokens_v(out@) =~= t0 + obs_tokens(root@, head));
        assert(seq![head].drop_last() =~= Seq::<ObsV>::empty());
        assert(seq![head].last() == head);
        assert(all_tokens(root@, Seq::<ObsV>::empty()) =~= Seq::<TokenV>::empty());
        assert(all_tokens(root@, seq![head]) =~= obs_tokens(root@, head));
        assert(observations(fmt, *v, sp) == seq![head] + children_obs(fmt, *v, sp));
    }
    let ghost t1: Seq<TokenV> = tokens_v(out@);
    match v {
        ValueNode::Array(xs) => {
            walk_array(fmt, xs, root, path, out);
        },
        ValueNode::Object(es) => {
            walk_object(fmt, es, root, path, out);
        },
        ValueNode::Tagged(_, inner) => {
            write_output(fmt, &**inner, root, path, out);
        },
        _ => {
            proof {
                assert(children_obs(fmt, *v, sp) =~= Seq::<ObsV>::empty());
            }
        },
    }
    proof {
        lemma_all_tokens_concat(root@, seq![head], children_obs(fmt, *v, sp));
        assert(tokens_v(out@) =~= t0 + all_tokens(root@, observations(fmt, *v, sp)));
    }
}

/// Walks the elements of an array, pushing `[i]` around element `i`.
fn walk_array(
    fmt: InputType,
    xs: &Vec<ValueNode>,
    root: &str,
    path: &mut Vec<PathStep>,
    out: &mut Vec<Token>,
)
    ensures
        final(path)@ == old(path)@,
        tokens_v(final(out)@) == tokens_v(old(out)@) + all_tokens(
            root@,
            arr_obs(fmt, xs@, steps_v(old(path)@), xs@.len() as int),
        ),
    decreases xs@, 0int,
{
    let ghost p0: Seq<PathStep> = path@;
    let ghost sp0: Seq<StepV> = steps_v(path@);
    let ghost t0: Seq<TokenV> = tokens_v(out@);
    let mut i: usize = 0;
    while i < xs.len()
        invariant
            0 <= i <= xs.len(),
            path@ == p0,
            sp0 == steps_v(p0),
            tokens_v(out@) == t0 + all_tokens(root@, arr_obs(fmt, xs@, sp0, i as int)),
        decreases xs@.len() - i,
    {
        path.push(PathStep::ArrayIndex(i));
        proof {
            assert(steps_v(path@) =~= sp0.push(StepV::Index(i as int)));
        }
        write_output(fmt, &xs[i], root, path, out);
        path.pop();
        proof {
            assert(path@ =~= p0);
            lemma_all_tokens_concat(
                root@,
                arr_obs(fmt, xs@, sp0, i as int),
                observations(fmt, xs@[i as int], sp0.push(StepV::Index(i as int))),
            );
            assert(arr_obs(fmt, xs@, sp0, i + 1) == arr_obs(fmt, xs@, sp0, i as int)
                + observations(fmt, xs@[i as int], sp0.push(StepV::Index(i as int))));
            assert(tokens_v(out@) =~= t0 + all_tokens(root@, arr_obs(fmt, xs@, sp0, i + 1)));
        }
        i += 1;
    }
}

/// Walks the entries of an object or mapping, pushing `.key` around each
/// entry's value, the key normalized for the format.
fn walk_object(
    fmt: InputType,
    es: &Vec<(KeyNode, ValueNode)>,
    root: &str,
    path: &mut Vec<PathStep>,
    out: &mut Vec<Token>,
)
    ensures
        final(path)@ == old(path)@,
        tokens_v(final(out)@) == tokens_v(old(out)@) + all_tokens(
            root@,
            obj_obs(fmt, es@, steps_v(old(path)@), es@.len() as int),
        ),
    decreases es@, 0int,
{
    let ghost p0: Seq<PathStep> = path@;
    let ghost sp0: Seq<StepV> = steps_v(path@);
    let ghost t0: Seq<TokenV> = tokens_v(out@);
    let mut i: usize = 0;
    while i < es.len()
        invariant
            0 <= i <= es.len(),
            path@ == p0,
            sp0 == steps_v(p0),
            tokens_v(out@) == t0 + all_tokens(root@, obj_obs(fmt, es@, sp0, i as int)),
        decreases es@.len() - i,
    {
        let entry = &es[i];
        let key = key_label(fmt, &entry.0);
        path.push(PathStep::ObjectKey(key));
        proof {
            assert(steps_v(path@) =~= sp0.push(StepV::Key(key_text(fmt, es@[i as int].0))));
        }
        write_output(fmt, &entry.1, root, path, out);
        path.pop();
        proof {
            assert(path@ =~= p0);
            lemma_all_tokens_concat(
                root@,
                obj_obs(fmt, es@, sp0, i as int),
                observations(
                    fmt,
                    es@[i as int].1,
                    sp0.push(StepV::Key(key_text(fmt, es@[i as int].0))),
                ),
            );
            assert(obj_obs(fmt, es@, sp0, i + 1) == obj_obs(fmt, es@, sp0, i as int)
                + observations(
                fmt,
                es@[i as int].1,
                sp0.push(StepV::Key(key_text(fmt, es@[i as int].0))),
            ));
            assert(tokens_v(out@) =~= t0 + all_tokens(root@, obj_obs(fmt, es@, sp0, i + 1)));
        }
        i += 1;
    }
}

/// Walks a whole document from an empty path and returns its output tokens.
pub fn gron_tokens(fmt: InputType, v: &ValueNode, root: &str) -> (out: Vec<Token>)
    ensures
        tokens_v(out@) == all_tokens(root@, observations(fmt, *v, Seq::<StepV>::empty())),
{
    let mut path: Vec<PathStep> = Vec::new();
    let mut out: Vec<Token> = Vec::new();
    proof {
        assert(steps_v(path@) =~= Seq::<StepV>::empty());
    }
    write_output(fmt, v, root, &mut path, &mut out);
    proof {
        assert(tokens_v(out@) =~= Seq::<TokenV>::empty() + all_tokens(
            root@,
            observations(fmt, *v, Seq::<StepV>::empty()),
        ));
        assert(Seq::<TokenV>::empty() + all_tokens(
            root@,
            observations(fmt, *v, Seq::<StepV>::empty()),
        ) =~= all_tokens(root@, observations(fmt, *v, Seq::<StepV>::empty())));
    }
    out
}

/// Concatenates the texts of a token stream: the plain rendering.
pub fn tokens_to_string(ts: &Vec<Token>) -> (s: String)
    ensures
        s@ == tokens_text(tokens_v(ts@)),
{
    let mut s = String::new();
    proof {
        assert(tokens_v(ts@).subrange(0, 0) =~= Seq::<TokenV>::empty());
    }
    let mut i: usize = 0;
    while i < ts.len()
        invariant
            0 <= i <= ts.len(),
            s@ == tokens_text(tokens_v(ts@).subrange(0, i as int)),
        decreases ts.len() - i,
    {
        let t = &ts[i];
        s.append(t.text.as_str());
        proof {
            assert(tokens_v(ts@).subrange(0, i + 1).drop_last() =~= tokens_v(ts@).subrange(
                0,
                i as int,
            ));
            assert(tokens_v(ts@).subrange(0, i + 1).last() == token_v(ts@[i as int]));
        }
        i += 1;
    }
    proof {
        assert(tokens_v(ts@).subrange(0, ts@.len() as int) =~= tokens_v(ts@));
    }
    s
}

/// Walks a whole document and renders its plain text output.
pub fn gron_plain(fmt: InputType, v: &ValueNode, root: &str) -> (s: String)
    ensures
        s@ == gron_text(fmt, *v, root@),
{
    let toks = gron_tokens(fmt, v, root);
    tokens_to_string(&toks)
}

/// A node's own record opens its observation block: it is the very first
/// observation, carries exactly the path the walk reached the node at, and
/// everything after it belongs to the node's descendants. A leaf's block is
/// that one record alone.
pub proof fn lemma_node_record_first(fmt: InputType, v: ValueNode, p: Seq<StepV>)
    ensures
        observations(fmt, v, p).len() >= 1,
        observations(fmt, v, p)[0] == (ObsV {
            steps: p,
            class: literal_class(v),
            literal: literal_text(v),
        }),
        observations(fmt, v, p).drop_first() == children_obs(fmt, v, p),
        v.is_leaf() ==> observations(fmt, v, p).len() == 1,
{
    let head = ObsV { steps: p, class: literal_class(v), literal: literal_text(v) };
    assert((seq![head] + children_obs(fmt, v, p))[0] == head);
    assert((seq![head] + children_obs(fmt, v, p)).drop_first() =~= children_obs(fmt, v, p));
    if v.is_leaf() {
        assert(children_obs(fmt, v, p) =~= Seq::<ObsV>::empty());
    }
}

/// Array elements contribute their observation blocks in source order:
/// the block of the first `n` elements is the block of the first `n - 1`
/// followed by element `n - 1`'s whole block, observed one step deeper at
/// its own index.
pub proof fn lemma_array_children_in_order(
    fmt: InputType,
    es: Seq<ValueNode>,
    p: Seq<StepV>,
    n: int,
)
    requires
        0 < n <= es.len(),
    ensures
        arr_obs(fmt, es, p, n) == arr_obs(fmt, es, p, n - 1) + observations(
            fmt,
            es[n - 1],
            p.push(StepV::Index(n - 1)),
        ),
{
}

/// Object entries contribute their observation blocks in source order, each
/// one step deeper at its normalized key.
pub proof fn lemma_object_children_in_order(
    fmt: InputType,
    es: Seq<(KeyNode, ValueNode)>,
    p: Seq<StepV>,
    n: int,
)
    requires
        0 < n <= es.len(),
    ensures
        obj_obs(fmt, es, p, n) == obj_obs(fmt, es, p, n - 1) + observations(
            fmt,
            es[n - 1].1,
            p.push(StepV::Key(key_text(fmt, es[n - 1].0))),
        ),
{
}

proof fn lemma_prefix_trans(a: Seq<StepV>, b: Seq<StepV>, c: Seq<StepV>)
    requires
        a.is_prefix_of(b),
        b.is_prefix_of(c),
    ensures
        a.is_prefix_of(c),
{
    assert forall|i: int| 0 <= i < a.len() implies a[i] == c.subrange(0, a.len() as int)[i] by {
        assert(a[i] == b.subrange(0, a.len() as int)[i]);
        assert(b[i] == c.subrange(0, b.len() as int)[i]);
    }
    assert(a =~= c.subrange(0, a.len() as int));
}

/// Path/depth correspondence: every observation of a walk that starts at
/// path `p` carries `p` as a prefix of its own path, the walked node's own
/// record carries exactly `p`, and (by `lemma_array_children_in_order` and
/// `lemma_object_children_in_order`) each child's block extends `p` by
/// exactly one step — so a node observed `d` levels below the start carries
/// exactly `d` more steps than `p`.
pub proof fn lemma_paths_extend(fmt: InputType, v: ValueNode, p: Seq<StepV>)
    ensures
        observations(fmt, v, p)[0].steps == p,
        forall|i: int|
            0 <= i < observations(fmt, v, p).len() ==> p.is_prefix_of(
                #[trigger] observations(fmt, v, p)[i].steps,
            ),
    decreases v, 1int,
{
    let obs = observations(fmt, v, p);
    let children = children_obs(fmt, v, p);
    assert(p =~= p.subrange(0, p.len() as int));
    lemma_children_paths_extend(fmt, v, p);
    assert forall|i: int| 0 <= i < obs.len() implies p.is_prefix_of(obs[i].steps) by {
        if i > 0 {
            assert(obs[i] == children[i - 1]);
        }
    }
}

proof fn lemma_children_paths_extend(fmt: InputType, v: ValueNode, p: Seq<StepV>)
    ensures
        forall|i: int|
            0 <= i < children_obs(fmt, v, p).len() ==> p.is_prefix_of(
                #[trigger] children_obs(fmt, v, p)[i].steps,
            ),
    decreases v, 0int,
{
    match v {
        ValueNode::Array(xs) => {
            lemma_arr_paths_extend(fmt, xs@, p, xs@.len() as int);
        },
        ValueNode::Object(es) => {
            lemma_obj_paths_extend(fmt, es@, p, es@.len() as int);
        },
        ValueNode::Tagged(_, inner) => {
            lemma_paths_extend(fmt, *inner, p);
        },
        _ => {},
    }
}

proof fn lemma_arr_paths_extend(fmt: InputType, es: Seq<ValueNode>, p: Seq<StepV>, n: int)
    requires
        n <= es.len(),
    ensures
        forall|i: int|
            0 <= i < arr_obs(fmt, es, p, n).len() ==> p.is_prefix_of(
                #[trigger] arr_obs(fmt, es, p, n)[i].steps,
            ),
    decreases es, n,
{
    if n > 0 {
        lemma_arr_paths_extend(fmt, es, p, n - 1);
        let q = p.push(StepV::Index(n - 1));
        lemma_paths_extend(fmt, es[n - 1], q);
        assert(p =~= q.subrange(0, p.len() as int));
        let front = arr_obs(fmt, es, p, n - 1);
        let block = observations(fmt, es[n - 1], q);
        assert forall|i: int| 0 <= i < arr_obs(fmt, es, p, n).len() implies p.is_prefix_of(
            arr_obs(fmt, es, p, n)[i].steps,
        ) by {
            if i < front.len() {
                assert(arr_obs(fmt, es, p, n)[i] == front[i]);
            } else {
                assert(arr_obs(fmt, es, p, n)[i] == block[i - front.len()]);
                lemma_prefix_trans(p, q, block[i - front.len()].steps);
            }
        }
    }
}

proof fn lemma_obj_paths_extend(fmt: InputType, es: Seq<(KeyNode, ValueNode)>, p: Seq<StepV>, n: int)
    requires
        n <= es.len(),
    ensures
        forall|i: int|
            0 <= i < obj_obs(fmt, es, p, n).len() ==> p.is_prefix_of(
                #[trigger] obj_obs(fmt, es, p, n)[i].steps,
            ),
    decreases es, n,
{
    if n > 0 {
        lemma_obj_paths_extend(fmt, es, p, n - 1);
        let q = p.push(StepV::Key(key_text(fmt, es[n - 1].0)));
        lemma_paths_extend(fmt, es[n - 1].1, q);
        assert(p =~= q.subrange(0, p.len() as int));
        let front = obj_obs(fmt, es, p, n - 1);
        let block = observations(fmt, es[n - 1].1, q);
        assert forall|i: int| 0 <= i < obj_obs(fmt, es, p, n).len() implies p.is_prefix_of(
            obj_obs(fmt, es, p, n)[i].steps,
        ) by {
            if i < front.len() {
                assert(obj_obs(fmt, es, p, n)[i] == front[i]);
            } else {
                assert(obj_obs(fmt, es, p, n)[i] == block[i - front.len()]);
                lemma_prefix_trans(p, q, block[i - front.len()].steps);
            }
        }
    }
}

/// The depth, relative to the walked node, of each observed node, in
/// observation order: the node itself at depth zero, array elements and
/// object entries one level deeper than their container, and a tagged
/// node's inner value at the tag's own depth (the tag is not a path step).
pub open spec fn obs_depths(fmt: InputType, v: ValueNode) -> Seq<nat>
    decreases v, 1int,
{
    seq![0nat] + children_depths(fmt, v)
}

pub open spec fn children_depths(fmt: InputType, v: ValueNode) -> Seq<nat>
    decreases v, 0int,
{
    match v {
        ValueNode::Array(xs) => arr_depths(fmt, xs@, xs@.len() as int),
        ValueNode::Object(es) => obj_depths(fmt, es@, es@.len() as int),
        ValueNode::Tagged(_, inner) => obs_depths(fmt, *inner),
        _ => Seq::<nat>::empty(),
    }
}

pub open spec fn arr_depths(fmt: InputType, es: Seq<ValueNode>, n: int) -> Seq<nat>
    decreases es, n,
{
    if n <= 0 || n > es.len() {
        Seq::<nat>::empty()
    } else {
        arr_depths(fmt, es, n - 1) + obs_depths(fmt, es[n - 1]).map_values(
            |d: nat| (d + 1) as nat,
        )
    }
}

pub open spec fn obj_depths(fmt: InputType, es: Seq<(KeyNode, ValueNode)>, n: int) -> Seq<nat>
    decreases es, n,
{
    if n <= 0 || n > es.len() {
        Seq::<nat>::empty()
    } else {
        obj_depths(fmt, es, n - 1) + obs_depths(fmt, es[n - 1].1).map_values(
            |d: nat| (d + 1) as nat,
        )
    }
}

/// Path/depth correspondence, exactly: a walk started at path `p` observes
/// one node per record, and the i-th record carries `p.len()` plus that
/// node's depth below the walked node — so from the document root, the
/// number of path steps in a record equals the recorded node's depth.
pub proof fn lemma_path_depth_correspondence(fmt: InputType, v: ValueNode, p: Seq<StepV>)
    ensures
        obs_depths(fmt, v).len() == observations(fmt, v, p).len(),
        forall|i: int|
            0 <= i < observations(fmt, v, p).len() ==> (#[trigger] observations(
                fmt,
                v,
                p,
            )[i]).steps.len() == p.len() + obs_depths(fmt, v)[i],
    decreases v, 1int,
{
    let obs = observations(fmt, v, p);
    let ds = obs_depths(fmt, v);
    lemma_children_depth_correspondence(fmt, v, p);
    assert forall|i: int| 0 <= i < obs.len() implies obs[i].steps.len() == p.len() + ds[i] by {
        if i > 0 {
            assert(obs[i] == children_obs(fmt, v, p)[i - 1]);
            assert(ds[i] == children_depths(fmt, v)[i - 1]);
        }
    }
}

proof fn lemma_children_depth_correspondence(fmt: InputType, v: ValueNode, p: Seq<StepV>)
    ensures
        children_depths(fmt, v).len() == children_obs(fmt, v, p).len(),
        forall|i: int|
            0 <= i < children_obs(fmt, v, p).len() ==> (#[trigger] children_obs(
                fmt,
                v,
                p,
            )[i]).steps.len() == p.len() + children_depths(fmt, v)[i],
    decreases v, 0int,
{
    match v {
        ValueNode::Array(xs) => {
            lemma_arr_depth_correspondence(fmt, xs@, p, xs@.len() as int);
        },
        ValueNode::Object(es) => {
            lemma_obj_depth_correspondence(fmt, es@, p, es@.len() as int);
        },
        ValueNode::Tagged(_, inner) => {
            lemma_path_depth_correspondence(fmt, *inner, p);
        },
        _ => {},
    }
}

proof fn lemma_arr_depth_correspondence(fmt: InputType, es: Seq<ValueNode>, p: Seq<StepV>, n: int)
    requires
        n <= es.len(),
    ensures
        arr_depths(fmt, es, n).len() == arr_obs(fmt, es, p, n).len(),
        forall|i: int|
            0 <= i < arr_obs(fmt, es, p, n).len() ==> (#[trigger] arr_obs(
                fmt,
                es,
                p,
                n,
            )[i]).steps.len() == p.len() + arr_depths(fmt, es, n)[i],
    decreases es, n,
{
    if n > 0 {
        lemma_arr_depth_correspondence(fmt, es, p, n - 1);
        let q = p.push(StepV::Index(n - 1));
        lemma_path_depth_correspondence(fmt, es[n - 1], q);
        let front = arr_obs(fmt, es, p, n - 1);
        let block = observations(fmt, es[n - 1], q);
        let dfront = arr_depths(fmt, es, n - 1);
        let dblock = obs_depths(fmt, es[n - 1]).map_values(|d: nat| (d + 1) as nat);
        assert forall|i: int| 0 <= i < arr_obs(fmt, es, p, n).len() implies (arr_obs(
            fmt,
            es,
            p,
            n,
        )[i]).steps.len() == p.len() + arr_depths(fmt, es, n)[i] by {
            if i < front.len() {
                assert(arr_obs(fmt, es, p, n)[i] == front[i]);
                assert(arr_depths(fmt, es, n)[i] == dfront[i]);
            } else {
                let j = i - front.len();
                assert(arr_obs(fmt, es, p, n)[i] == block[j]);
                assert(arr_depths(fmt, es, n)[i] == dblock[j]);
                assert(block[j].steps.len() == q.len() + obs_depths(fmt, es[n - 1])[j]);
            }
        }
    }
}

proof fn lemma_obj_depth_correspondence(
    fmt: InputType,
    es: Seq<(KeyNode, ValueNode)>,
    p: Seq<StepV>,
    n: int,
)
    requires
        n <= es.len(),
    ensures
        obj_depths(fmt, es, n).len() == obj_obs(fmt, es, p, n).len(),
        forall|i: int|
            0 <= i < obj_obs(fmt, es, p, n).len() ==> (#[trigger] obj_obs(
                fmt,
                es,
                p,
                n,
            )[i]).steps.len() == p.len() + obj_depths(fmt, es, n)[i],
    decreases es, n,
{
    if n > 0 {
        lemma_obj_depth_correspondence(fmt, es, p, n - 1);
        let q = p.push(StepV::Key(key_text(fmt, es[n - 1].0)));
        lemma_path_depth_correspondence(fmt, es[n - 1].1, q);
        let front = obj_obs(fmt, es, p, n - 1);
        let block = observations(fmt, es[n - 1].1, q);
        let dfront = obj_depths(fmt, es, n - 1);
        let dblock = obs_depths(fmt, es[n - 1].1).map_values(|d: nat| (d + 1) as nat);
        assert forall|i: int| 0 <= i < obj_obs(fmt, es, p, n).len() implies (obj_obs(
            fmt,
            es,
            p,
            n,
        )[i]).steps.len() == p.len() + obj_depths(fmt, es, n)[i] by {
            if i < front.len() {
                assert(obj_obs(fmt, es, p, n)[i] == front[i]);
                assert(obj_depths(fmt, es, n)[i] == dfront[i]);
            } else {
                let j = i - front.len();
                assert(obj_obs(fmt, es, p, n)[i] == block[j]);
                assert(obj_depths(fmt, es, n)[i] == dblock[j]);
                assert(block[j].steps.len() == q.len() + obs_depths(fmt, es[n - 1].1)[j]);
            }
        }
    }
}

/// An empty array or object produces exactly one observation — its own
/// empty-container marker — and no descendant records at all.
pub proof fn lemma_empty_container(fmt: InputType, v: ValueNode, p: Seq<StepV>)
    requires
        (v matches ValueNode::Array(xs) && xs@.len() == 0) || (v matches ValueNode::Object(es)
            && es@.len() == 0),
    ensures
        observations(fmt, v, p).len() == 1,
        observations(fmt, v, p)[0] == (ObsV {
            steps: p,
            class: TokenClass::Bracket,
            literal: literal_text(v),
        }),
{
    assert(children_obs(fmt, v, p) =~= Seq::<ObsV>::empty());
}

/// Appends `[n]` to a path string.
pub fn append_index_text(s: &mut String, n: usize)
    ensures
        final(s)@ == old(s)@ + step_text(StepV::Index(n as int)),
{
    s.append("[");
    let d = u64_to_string(n as u64);
    s.append(d.as_str());
    s.append("]");
    proof {
        assert(s@ =~= old(s)@ + step_text(StepV::Index(n as int)));
    }
}

/// Appends `.key` to a path string.
pub fn append_key_text(s: &mut String, k: &String)
    ensures
        final(s)@ == old(s)@ + step_text(StepV::Key(k@)),
{
    s.append(".");
    s.append(k.as_str());
    proof {
        assert(s@ =~= old(s)@ + step_text(StepV::Key(k@)));
    }
}

} // verus!
