//! Argument-level choices a command line hands to the library: the requested
//! input format and the color mode. Parsing the command line itself happens
//! outside the library.

use vstd::prelude::*;

verus! {

/// The input format as requested on the command line; `Auto` asks the
/// library to detect the format itself.
#[derive(Debug, Clone, Copy, PartialEq, Eq, Hash, Structural)]
pub enum ArgInputType {
    Auto,
    Json,
    Json5,
    Toml,
    Yaml,
}

impl Default for ArgInputType {
    fn default() -> (r: Self)
        ensures
            r == ArgInputType::Auto,
    {
        ArgInputType::Auto
    }
}

/// The color mode as requested on the command line; `Auto` colors exactly
/// when standard output is a terminal.
#[derive(Debug, Clone, Copy, PartialEq, Eq, Hash, Structural)]
pub enum ArgColor {
    Auto,
    Always,
    Never,
}

impl Default for ArgColor {
    fn default() -> (r: Self)
        ensures
            r == ArgColor::Auto,
    {
        ArgColor::Auto
    }
}

} // verus!
