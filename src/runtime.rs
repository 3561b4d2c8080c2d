use vstd::prelude::*;
use vstd::string::StringExecFns;
use crate::hook::HookError;

verus! {

/// Directory under the storage root that holds the game's files.
pub const GAME_DIR_NAME: &'static str = "Balatro";

/// Directory under the game directory that holds the mods.
pub const MODS_DIR_NAME: &'static str = "mods";

/// Why bootstrap could not complete; each one is fatal to the process.
#[derive(Clone, Copy, Debug, PartialEq, Eq, Structural)]
pub enum BootError {
    /// The platform could not name the storage directory.
    StorageUnresolvable,
    /// A runtime was already installed in the process-wide slot.
    DuplicateRuntimeInit,
    /// The loader symbol could not be found or hooked.
    Hook(HookError),
}

/// The configuration handed to the patch engine.
pub struct ModConfig {
    pub dump_all: bool,
    pub vanilla: bool,
    pub mod_dir: Option<String>,
}

/// The mod directory that belongs to a storage root.
pub open spec fn mods_path(root: Seq<char>) -> Seq<char> {
    root + "/"@ + GAME_DIR_NAME@ + "/"@ + MODS_DIR_NAME@
}

/// The configuration that bootstrap builds for a storage root.
pub open spec fn is_config_for(c: ModConfig, root: Seq<char>) -> bool {
    &&& !c.dump_all
    &&& !c.vanilla
    &&& c.mod_dir matches Some(d) && d@ == mods_path(root)
}

/// Builds the configuration for the mods under `storage_root`: patches are
/// applied, nothing is dumped, and the mod directory is
/// `<storage_root>/Balatro/mods`.
pub fn mod_config(storage_root: &str) -> (r: ModConfig)
    ensures
        is_config_for(r, storage_root@),
{
    let mut dir = String::from_str(storage_root);
    dir.append("/");
    dir.append(GAME_DIR_NAME);
    dir.append("/");
    dir.append(MODS_DIR_NAME);
    ModConfig { dump_all: false, vanilla: false, mod_dir: Some(dir) }
}

/// The slot after an install attempt, and the attempt's result.
pub open spec fn slot_install<T>(slot: Option<T>, rt: T) -> (Option<T>, Result<(), BootError>) {
    match slot {
        None => (Some(rt), Ok(())),
        Some(first) => (Some(first), Err(BootError::DuplicateRuntimeInit)),
    }
}

/// The process-wide slot for the one runtime dispatcher: it can be filled
/// once and is read-only from then on.
pub struct RuntimeSlot<T> {
    value: Option<T>,
}

impl<T> View for RuntimeSlot<T> {
    type V = Option<T>;

    closed spec fn view(&self) -> Option<T> {
        self.value
    }
}

impl<T> RuntimeSlot<T> {
    /// An empty slot.
    pub fn new() -> (r: RuntimeSlot<T>)
        ensures
            r@ is None,
    {
        RuntimeSlot { value: None }
    }

    /// Puts `rt` in the slot; fails, leaving the slot as it was, when a
    /// runtime is already there.
    pub fn install(&mut self, rt: T) -> (r: Result<(), BootError>)
        ensures
            (final(self)@, r) == slot_install(old(self)@, rt),
    {
        if self.value.is_some() {
            Err(BootError::DuplicateRuntimeInit)
        } else {
            self.value = Some(rt);
            Ok(())
        }
    }

    /// The installed runtime, if any.
    pub fn get(&self) -> (r: Option<&T>)
        ensures
            r is Some <==> self@ is Some,
            r is Some ==> *r->Some_0 == self@->Some_0,
    {
        self.value.as_ref()
    }
}

/// Installing a second runtime fails and keeps the first.
pub proof fn law_second_install_fails<T>(slot: Option<T>, first: T, second: T)
    requires
        slot is None,
    ensures
        slot_install(slot, first).1 is Ok,
        slot_install(slot_install(slot, first).0, second) == (
        Some(first),
        Err::<(), BootError>(BootError::DuplicateRuntimeInit),
        ),
{
}

} // verus!
