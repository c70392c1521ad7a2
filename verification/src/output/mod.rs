//! Output-side building blocks: per-format path types and the key
//! normalizers used when a mapping key becomes a path segment.

use vstd::prelude::*;

pub mod json;
pub mod toml;
pub mod yaml;

use crate::cli::ArgColor;

verus! {

/// Whether output is plain or color-annotated.
#[derive(Debug, Clone, Copy, PartialEq, Eq, Hash, Structural)]
pub enum Color {
    Regular,
    Colored,
}

/// The color choice a command-line argument resolves to, given whether
/// standard output is a terminal.
pub open spec fn color_choice(c: ArgColor, tty: bool) -> Color {
    match c {
        ArgColor::Auto => if tty {
            Color::Colored
        } else {
            Color::Regular
        },
        ArgColor::Always => Color::Colored,
        ArgColor::Never => Color::Regular,
    }
}

/// Relies on atty::is(atty::Stream::Stdout): whether standard output is a
/// terminal. The answer depends on the environment, so nothing is claimed
/// of it.
#[verifier::external_body]
fn stdout_is_tty() -> bool {
    atty::is(atty::Stream::Stdout)
}

impl Color {
    /// Resolves a color argument against the given terminal answer.
    pub fn for_terminal(c: ArgColor, tty: bool) -> (r: Color)
        ensures
            r == color_choice(c, tty),
    {
        match c {
            ArgColor::Auto => if tty {
                Color::Colored
            } else {
                Color::Regular
            },
            ArgColor::Always => Color::Colored,
            ArgColor::Never => Color::Regular,
        }
    }

    /// Resolves a color argument; `Auto` consults whether standard output
    /// is a terminal, so only the two forced arguments pin the result.
    pub fn from(c: ArgColor) -> (r: Color)
        ensures
            c == ArgColor::Always ==> r == Color::Colored,
            c == ArgColor::Never ==> r == Color::Regular,
    {
        Color::for_terminal(c, stdout_is_tty())
    }
}

/// The configuration a conversion runs under. The converted text is the
/// same under either color mode: color only affects how a sink renders the
/// classed token stream, never which characters the records carry.
#[derive(Debug)]
pub struct Config {
    pub color: Color,
}

/// The selectable output styles; gron-style path assignments are the one
/// style provided.
#[derive(Debug, Clone, Copy, PartialEq, Eq, Structural)]
pub enum WriterKind {
    Gron,
}

impl Default for WriterKind {
    fn default() -> (r: Self)
        ensures
            r == WriterKind::Gron,
    {
        WriterKind::Gron
    }
}

} // verus!
