//! Runtime patching of a host's scripting engine: the decisions behind
//! hooking the engine's chunk loaders, stated and proved.
//!
//! - `hook`: the loader symbols and why a hook can fail.
//! - `cell`: the once-only trampoline resolution shared by racing callers.
//! - `runtime`: the mod configuration and the single runtime slot.
//! - `detour`: the load request and the chunk handed to the original loader.
//! - `barrier`: what a detour does with the outcome of a guarded load.
//! - `boot`: the bootstrap sequence, in which every failure aborts.

pub mod barrier;
pub mod boot;
pub mod cell;
pub mod detour;
pub mod hook;
pub mod runtime;
