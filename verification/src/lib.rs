//! Version-directory resolution and archive acquisition for external C#
//! tooling: a language server and a debug adapter that are downloaded as
//! compressed archives, unpacked into per-version directories, validated and
//! pruned.
//!
//! The crate holds the decision logic only.  Every filesystem or network
//! effect is requested through an explicit [`effects::Action`] value and its
//! result handed back as an [`effects::Event`], so a thin unverified driver
//! can execute them while the choices themselves are verified here.

pub mod archive;
pub mod command_builder;
pub mod dap;
pub mod effects;
pub mod engine;
pub mod extension_config;
pub mod logger;
pub mod path_utils;
pub mod resolver;
pub mod text;
pub mod version_config;

use vstd::prelude::*;

verus! {

/// Lexicographic order on whole strings, the order used to rank version
/// strings.  This is deliberately plain string ordering, not a semantic
/// version comparison: "9.0" ranks above "10.0".
pub fn version_less(a: &str, b: &str) -> (r: bool)
    ensures
        r == text::lex_lt(a@, b@),
{
    text::lex_less(a, b)
}

} // verus!
