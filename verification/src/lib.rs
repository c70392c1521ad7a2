//! Flatten structured configuration documents (JSON, JSON5, TOML, YAML) into
//! line-oriented, greppable path assignments: one line per value, of the form
//! `root.path[index] = literal`.
//!
//! The document parsers are outside libraries; everything that happens after a
//! parse — walking the tree, tracking the path, normalizing keys, rendering
//! lines — is verified here.

use vstd::prelude::*;

pub mod cli;
pub mod input;
pub mod output;
pub mod text;
pub mod value;
pub mod walk;

use crate::cli::ArgInputType;
use crate::input::{GronError, InputType};
use crate::output::{Config, WriterKind};
use crate::walk::{all_tokens, observations, tokens_v, StepV, Token};

verus! {

/// The format the auto-detection fallback settles on: the candidates are
/// tried in the fixed order JSON, JSON5, TOML, YAML, and the first whose
/// parser accepts the text wins. A text valid under several formats
/// therefore converts under the earliest of them.
pub open spec fn detected(s: Seq<char>) -> Option<InputType> {
    if InputType::Json.spec_parses(s) {
        Some(InputType::Json)
    } else if InputType::Json5.spec_parses(s) {
        Some(InputType::Json5)
    } else if InputType::Toml.spec_parses(s) {
        Some(InputType::Toml)
    } else if InputType::Yaml.spec_parses(s) {
        Some(InputType::Yaml)
    } else {
        None
    }
}

/// What a conversion forced to format `t` returns: the converted text
/// exactly when `t`'s parser accepts the input, else that parser's error.
pub open spec fn forced_result(r: Result<String, GronError>, t: InputType, s: Seq<char>) -> bool {
    &&& r is Ok <==> t.spec_parses(s)
    &&& r is Ok ==> r->Ok_0@ == t.gron_output(s)
    &&& r is Err ==> r->Err_0 is Deserialize
}

/// What the brute-force auto-detection returns: the detected format's
/// converted text, or the auto-detection failure when no format accepts.
pub open spec fn auto_result(r: Result<String, GronError>, s: Seq<char>) -> bool {
    match detected(s) {
        Some(t) => r is Ok && r->Ok_0@ == t.gron_output(s),
        None => r is Err && r->Err_0 is AutoDetectFailed,
    }
}

/// What a conversion without a forced format returns: a format guessed
/// from the file extension is used outright (its parse failure is final);
/// otherwise the candidates are tried in order.
pub open spec fn guessed_or_auto_result(
    r: Result<String, GronError>,
    extension: Option<&str>,
    s: Seq<char>,
) -> bool {
    match extension {
        Some(e) => match input::guessed_by_extension(e@) {
            Some(t) => forced_result(r, t, s),
            None => auto_result(r, s),
        },
        None => auto_result(r, s),
    }
}

/// Converts a document whose format was not forced: guess by file
/// extension where one is given and recognized, else try each format in
/// the fixed priority order and use the first that parses.
pub fn gron_auto(extension: Option<&str>, s: &str, config: &Config) -> (r: Result<
    String,
    GronError,
>)
    ensures
        guessed_or_auto_result(r, extension, s@),
{
    let guessed = match extension {
        Some(e) => InputType::guess_by_extension(e),
        None => None,
    };
    match guessed {
        Some(t) => t.write(s, &WriterKind::Gron, config),
        None => {
            match InputType::Json.write_gron(s, config) {
                Ok(o) => { return Ok(o); },
                Err(_) => {},
            }
            match InputType::Json5.write_gron(s, config) {
                Ok(o) => { return Ok(o); },
                Err(_) => {},
            }
            match InputType::Toml.write_gron(s, config) {
                Ok(o) => { return Ok(o); },
                Err(_) => {},
            }
            match InputType::Yaml.write_gron(s, config) {
                Ok(o) => { return Ok(o); },
                Err(_) => {},
            }
            Err(GronError::AutoDetectFailed)
        },
    }
}

/// Converts a document end to end: under the forced format where one was
/// chosen, else through auto-detection.
pub fn gron(input_type: ArgInputType, extension: Option<&str>, s: &str, config: &Config) -> (r:
    Result<String, GronError>)
    ensures
        match input_type {
            ArgInputType::Auto => guessed_or_auto_result(r, extension, s@),
            ArgInputType::Json => forced_result(r, InputType::Json, s@),
            ArgInputType::Json5 => forced_result(r, InputType::Json5, s@),
            ArgInputType::Toml => forced_result(r, InputType::Toml, s@),
            ArgInputType::Yaml => forced_result(r, InputType::Yaml, s@),
        },
{
    match InputType::try_from(input_type) {
        Ok(t) => t.write(s, &WriterKind::Gron, config),
        Err(_) => gron_auto(extension, s, config),
    }
}

/// The token streams behind the converted texts: what a forced conversion
/// yields, token for token.
pub open spec fn forced_tokens_result(
    r: Result<Vec<Token>, GronError>,
    t: InputType,
    s: Seq<char>,
) -> bool {
    &&& r is Ok <==> t.spec_parses(s)
    &&& r is Ok ==> tokens_v(r->Ok_0@) == all_tokens(
        t.id_text(),
        observations(t, t.spec_doc(s), Seq::<StepV>::empty()),
    )
    &&& r is Err ==> r->Err_0 is Deserialize
}

/// What the brute-force auto-detection yields as a token stream.
pub open spec fn auto_tokens_result(r: Result<Vec<Token>, GronError>, s: Seq<char>) -> bool {
    match detected(s) {
        Some(t) => r is Ok && tokens_v(r->Ok_0@) == all_tokens(
            t.id_text(),
            observations(t, t.spec_doc(s), Seq::<StepV>::empty()),
        ),
        None => r is Err && r->Err_0 is AutoDetectFailed,
    }
}

/// The token-stream twin of `gron`, for sinks that color their output: the
/// same format choice and the same records, as classed tokens whose
/// concatenated texts are exactly the plain output.
pub fn gron_tokens_for(
    input_type: ArgInputType,
    extension: Option<&str>,
    s: &str,
    config: &Config,
) -> (r: Result<Vec<Token>, GronError>)
    ensures
        match input_type {
            ArgInputType::Auto => match extension {
                Some(e) => match input::guessed_by_extension(e@) {
                    Some(t) => forced_tokens_result(r, t, s@),
                    None => auto_tokens_result(r, s@),
                },
                None => auto_tokens_result(r, s@),
            },
            ArgInputType::Json => forced_tokens_result(r, InputType::Json, s@),
            ArgInputType::Json5 => forced_tokens_result(r, InputType::Json5, s@),
            ArgInputType::Toml => forced_tokens_result(r, InputType::Toml, s@),
            ArgInputType::Yaml => forced_tokens_result(r, InputType::Yaml, s@),
        },
{
    match InputType::try_from(input_type) {
        Ok(t) => t.tokens(s),
        Err(_) => {
            let guessed = match extension {
                Some(e) => InputType::guess_by_extension(e),
                None => None,
            };
            match guessed {
                Some(t) => t.tokens(s),
                None => {
                    match InputType::Json.tokens(s) {
                        Ok(o) => { return Ok(o); },
                        Err(_) => {},
                    }
                    match InputType::Json5.tokens(s) {
                        Ok(o) => { return Ok(o); },
                        Err(_) => {},
                    }
                    match InputType::Toml.tokens(s) {
                        Ok(o) => { return Ok(o); },
                        Err(_) => {},
                    }
                    match InputType::Yaml.tokens(s) {
                        Ok(o) => { return Ok(o); },
                        Err(_) => {},
                    }
                    Err(GronError::AutoDetectFailed)
                },
            }
        },
    }
}

/// Converting the same input twice under the same forced format yields
/// byte-identical output: each run's success and text are pinned to the
/// same function of the input text alone.
pub proof fn lemma_rerun_identical(
    t: InputType,
    s: Seq<char>,
    r1: Result<String, GronError>,
    r2: Result<String, GronError>,
)
    requires
        forced_result(r1, t, s),
        forced_result(r2, t, s),
    ensures
        r1 is Ok <==> r2 is Ok,
        r1 is Ok ==> r1->Ok_0@ == r2->Ok_0@,
{
}

/// Re-running the auto-detected conversion is just as deterministic.
pub proof fn lemma_rerun_auto_identical(
    s: Seq<char>,
    r1: Result<String, GronError>,
    r2: Result<String, GronError>,
)
    requires
        auto_result(r1, s),
        auto_result(r2, s),
    ensures
        r1 is Ok <==> r2 is Ok,
        r1 is Ok ==> r1->Ok_0@ == r2->Ok_0@,
{
}

} // verus!
