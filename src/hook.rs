use vstd::prelude::*;

verus! {

/// Why the hook for a chunk-loader entry point could not be put in place.
#[derive(Clone, Copy, Debug, PartialEq, Eq, Structural)]
pub enum HookError {
    /// The scripting-engine library does not export the requested symbol.
    SymbolNotFound,
    /// The platform refused to redirect the target's code.
    InstallDenied,
}

/// The legacy four-argument chunk-loader symbol, hooked at bootstrap.
pub const LEGACY_LOADER_SYMBOL: &'static str = "luaL_loadbuffer";

/// The extended five-argument chunk-loader symbol, hooked on first use.
pub const EXTENDED_LOADER_SYMBOL: &'static str = "luaL_loadbufferx";

} // verus!
