//! What a caller can ask of a compilation.

use vstd::prelude::*;

verus! {

/// Compiler configuration.
#[derive(Debug, Clone, Copy)]
pub struct CompilerOptions {
    /// Carry the source files along in the output.
    pub include_source_map: bool,
    /// Ask the serialiser for indented output.
    pub pretty_print: bool,
    /// Accepted; there are no optimisation passes.
    pub optimize: bool,
}

impl Default for CompilerOptions {
    fn default() -> (options: Self)
        ensures
            !options.include_source_map,
            !options.pretty_print,
            !options.optimize,
    {
        CompilerOptions { include_source_map: false, pretty_print: false, optimize: false }
    }
}

} // verus!
