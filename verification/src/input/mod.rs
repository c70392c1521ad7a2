//! The supported input formats and the dispatch from a format to its
//! end-to-end conversion.

use vstd::prelude::*;
use vstd::string::*;

use crate::cli::ArgInputType;
use crate::output::Config;
use crate::output::WriterKind;
use crate::text::str_eq;
use crate::value::ValueNode;
use crate::walk::{all_tokens, gron_text, gron_tokens, observations, tokens_v, StepV, Token};

pub mod json;
pub mod json5;
pub mod toml;
pub mod yaml;

verus! {

/// One concrete input format.
#[derive(Debug, Copy, Clone, PartialEq, Eq, Hash, Structural)]
pub enum InputType {
    Json,
    Json5,
    Toml,
    Yaml,
}

/// The error for asking a concrete format of `ArgInputType::Auto`, which
/// names none.
#[derive(Debug, PartialEq, Eq, Hash, Clone, Structural)]
pub struct InputTypeAutoError;

/// Which format a file extension names, if any.
pub open spec fn guessed_by_extension(ext: Seq<char>) -> Option<InputType> {
    if ext == "json"@ {
        Some(InputType::Json)
    } else if ext == "json5"@ {
        Some(InputType::Json5)
    } else if ext == "toml"@ {
        Some(InputType::Toml)
    } else if ext == "yaml"@ || ext == "yml"@ {
        Some(InputType::Yaml)
    } else {
        None
    }
}

impl InputType {
    /// The concrete format a command-line choice names; `Auto` names none.
    pub fn try_from(value: ArgInputType) -> (r: Result<InputType, InputTypeAutoError>)
        ensures
            r == match value {
                ArgInputType::Auto => Err::<InputType, InputTypeAutoError>(InputTypeAutoError),
                ArgInputType::Json => Ok::<InputType, InputTypeAutoError>(InputType::Json),
                ArgInputType::Json5 => Ok::<InputType, InputTypeAutoError>(InputType::Json5),
                ArgInputType::Toml => Ok::<InputType, InputTypeAutoError>(InputType::Toml),
                ArgInputType::Yaml => Ok::<InputType, InputTypeAutoError>(InputType::Yaml),
            },
    {
        match value {
            ArgInputType::Auto => Err(InputTypeAutoError),
            ArgInputType::Json => Ok(InputType::Json),
            ArgInputType::Json5 => Ok(InputType::Json5),
            ArgInputType::Yaml => Ok(InputType::Yaml),
            ArgInputType::Toml => Ok(InputType::Toml),
        }
    }

    /// The format a file extension names, if it names one.
    pub fn guess_by_extension(ext: &str) -> (r: Option<InputType>)
        ensures
            r == guessed_by_extension(ext@),
    {
        if str_eq(ext, "json") {
            Some(InputType::Json)
        } else if str_eq(ext, "json5") {
            Some(InputType::Json5)
        } else if str_eq(ext, "toml") {
            Some(InputType::Toml)
        } else if str_eq(ext, "yaml") || str_eq(ext, "yml") {
            Some(InputType::Yaml)
        } else {
            None
        }
    }

    /// The root namespace label this format prefixes to every path.
    pub fn id(&self) -> (r: &'static str)
        ensures
            r@ == self.id_text(),
    {
        match self {
            InputType::Json => "json",
            InputType::Json5 => "json5",
            InputType::Toml => "toml",
            InputType::Yaml => "yaml",
        }
    }

    /// The root namespace label, at the specification level.
    pub open spec fn id_text(self) -> Seq<char> {
        match self {
            InputType::Json => "json"@,
            InputType::Json5 => "json5"@,
            InputType::Toml => "toml"@,
            InputType::Yaml => "yaml"@,
        }
    }

    /// Whether this format's parser accepts the text.
    pub open spec fn spec_parses(self, s: Seq<char>) -> bool {
        match self {
            InputType::Json => json::json_parses(s),
            InputType::Json5 => json5::json5_parses(s),
            InputType::Toml => toml::toml_parses(s),
            InputType::Yaml => yaml::yaml_parses(s),
        }
    }

    /// The tree this format's parser reads from the text.
    pub open spec fn spec_doc(self, s: Seq<char>) -> ValueNode {
        match self {
            InputType::Json => json::json_doc(s),
            InputType::Json5 => json5::json5_doc(s),
            InputType::Toml => toml::toml_doc(s),
            InputType::Yaml => yaml::yaml_doc(s),
        }
    }

    /// The full converted text of a document this format accepts.
    pub open spec fn gron_output(self, s: Seq<char>) -> Seq<char> {
        gron_text(self, self.spec_doc(s), self.id_text())
    }

    /// Parses the text under this format; on failure the parser's message.
    pub fn parse(&self, s: &str) -> (r: Result<ValueNode, String>)
        ensures
            r is Ok <==> self.spec_parses(s@),
            r is Ok ==> r->Ok_0 == self.spec_doc(s@),
    {
        match self {
            InputType::Json => json::parse_json(s),
            InputType::Json5 => json5::parse_json5(s),
            InputType::Toml => toml::parse_toml(s),
            InputType::Yaml => yaml::parse_yaml(s),
        }
    }

    /// Converts the text under this format into the classed token stream a
    /// color-capable sink can render.
    pub fn tokens(&self, s: &str) -> (r: Result<Vec<Token>, GronError>)
        ensures
            r is Ok <==> self.spec_parses(s@),
            r is Ok ==> tokens_v(r->Ok_0@) == all_tokens(
                self.id_text(),
                observations(*self, self.spec_doc(s@), Seq::<StepV>::empty()),
            ),
            r is Err ==> r->Err_0 is Deserialize,
    {
        match self.parse(s) {
            Ok(v) => Ok(gron_tokens(*self, &v, self.id())),
            Err(m) => Err(GronError::Deserialize(m)),
        }
    }

    /// Converts the text under this format into plain output text.
    pub fn write_gron(&self, s: &str, config: &Config) -> (r: Result<String, GronError>)
        ensures
            r is Ok <==> self.spec_parses(s@),
            r is Ok ==> r->Ok_0@ == self.gron_output(s@),
            r is Err ==> r->Err_0 is Deserialize,
    {
        match self {
            InputType::Json => json::Json::write_gron(s, config),
            InputType::Json5 => json5::Json5::write_gron(s, config),
            InputType::Toml => toml::Toml::write_gron(s, config),
            InputType::Yaml => yaml::Yaml::write_gron(s, config),
        }
    }

    /// Converts the text under this format, in the selected output style.
    pub fn write(&self, s: &str, kind: &WriterKind, config: &Config) -> (r: Result<
        String,
        GronError,
    >)
        ensures
            r is Ok <==> self.spec_parses(s@),
            r is Ok ==> r->Ok_0@ == self.gron_output(s@),
            r is Err ==> r->Err_0 is Deserialize,
    {
        match kind {
            WriterKind::Gron => self.write_gron(s, config),
        }
    }
}

/// A conversion's failure: either the selected format's parser rejected the
/// text, or no format in the auto-detection order accepted it.
#[derive(Debug, PartialEq, Eq, Clone)]
pub enum GronError {
    /// The parser's own message.
    Deserialize(String),
    AutoDetectFailed,
}

impl GronError {
    /// A human-readable description of the failure.
    pub fn message(&self) -> (r: String)
        ensures
            self is Deserialize ==> r@ == self->Deserialize_0@,
            self is AutoDetectFailed ==> r@ == "Input format auto detection failed."@,
    {
        match self {
            GronError::Deserialize(m) => m.clone(),
            GronError::AutoDetectFailed => String::from_str(
                "Input format auto detection failed.",
            ),
        }
    }
}

/// One format's end-to-end conversion: parse the text, walk the tree, and
/// render the path-assignment lines.
pub trait WriteGron {
    /// Which format this is.
    spec fn fmt() -> InputType;

    /// Converts the text, exactly when this format's parser accepts it.
    fn write_gron(s: &str, config: &Config) -> (r: Result<String, GronError>)
        ensures
            r is Ok <==> Self::fmt().spec_parses(s@),
            r is Ok ==> r->Ok_0@ == Self::fmt().gron_output(s@),
            r is Err ==> r->Err_0 is Deserialize,
    ;
}

} // verus!
