use lovely_android::barrier::{settle, BarrierAction};
use lovely_android::boot::{boot_next, BootAction, BootEvent, BootStage};
use lovely_android::cell::{CellAction, TrampolineCell};
use lovely_android::detour::{chunk_to_load, legacy_request, PatchDecision};
use lovely_android::hook::{HookError, LEGACY_LOADER_SYMBOL, EXTENDED_LOADER_SYMBOL};
use lovely_android::runtime::{BootError, RuntimeSlot};

fn fake_loader(buffer: &[u8]) -> u32 {
    if buffer.starts_with(b"return") { 0 } else { 3 }
}

#[test]
fn symbol_names() {
    assert_eq!(LEGACY_LOADER_SYMBOL, "luaL_loadbuffer");
    assert_eq!(EXTENDED_LOADER_SYMBOL, "luaL_loadbufferx");
}

#[test]
fn bootstrap_with_empty_mod_dir_loads_like_unhooked_engine() {
    let (stage, action) = boot_next(BootStage::Idle, BootEvent::Start);
    assert_eq!(stage, BootStage::AwaitStorage);
    assert!(matches!(action, BootAction::ResolveStorage));

    let (stage, action) =
        boot_next(stage, BootEvent::StorageResolved(Some(String::from("/sdcard"))));
    assert_eq!(stage, BootStage::AwaitRuntime);
    let config = match action {
        BootAction::StartRuntime(c) => c,
        _ => panic!("expected the runtime to be started"),
    };
    assert_eq!(config.mod_dir.as_deref(), Some("/sdcard/Balatro/mods"));

    let mut slot = RuntimeSlot::new();
    let installed = slot.install(config);
    let (stage, action) = boot_next(stage, BootEvent::RuntimeInstalled(installed));
    assert_eq!(stage, BootStage::AwaitLoader);
    assert!(matches!(action, BootAction::ResolveLoader));

    let (stage, action) = boot_next(stage, BootEvent::LoaderResolved(Some(0x1000)));
    assert_eq!(stage, BootStage::AwaitHook);
    assert!(matches!(action, BootAction::InstallHook(0x1000)));

    let (stage, action) = boot_next(stage, BootEvent::HookInstalled(Ok(0x2000)));
    assert_eq!(stage, BootStage::Ready);
    assert!(matches!(action, BootAction::Finish));

    let host_chunk = b"return {}";
    let req = legacy_request(host_chunk, b"main.lua");
    let chunk = chunk_to_load(req, PatchDecision::Unchanged);
    let status = fake_loader(&chunk.buffer);
    assert!(matches!(settle(Ok(status)), BarrierAction::Return(s) if s == fake_loader(host_chunk)));
}

#[test]
fn rewritten_chunk_status_comes_from_rewritten_source() {
    let req = legacy_request(b"return {}", b"main.lua");
    let chunk = chunk_to_load(req, PatchDecision::Rewritten(b"syntax error here".to_vec()));
    let status = fake_loader(&chunk.buffer);
    assert_eq!(status, 3);
    assert!(matches!(settle(Ok(status)), BarrierAction::Return(3)));
}

#[test]
fn unresolvable_storage_aborts_before_hook() {
    let (stage, _) = boot_next(BootStage::Idle, BootEvent::Start);
    let (stage, action) = boot_next(stage, BootEvent::StorageResolved(None));
    assert_eq!(stage, BootStage::Aborted(BootError::StorageUnresolvable));
    assert!(matches!(action, BootAction::Abort(BootError::StorageUnresolvable)));
    let (stage, action) = boot_next(stage, BootEvent::LoaderResolved(Some(0x1000)));
    assert_eq!(stage, BootStage::Aborted(BootError::StorageUnresolvable));
    assert!(matches!(action, BootAction::Nothing));
    let (_, action) = boot_next(stage, BootEvent::HookInstalled(Ok(0x2000)));
    assert!(matches!(action, BootAction::Nothing));
}

#[test]
fn duplicate_runtime_aborts() {
    let (stage, action) =
        boot_next(BootStage::AwaitRuntime, BootEvent::RuntimeInstalled(Err(BootError::DuplicateRuntimeInit)));
    assert_eq!(stage, BootStage::Aborted(BootError::DuplicateRuntimeInit));
    assert!(matches!(action, BootAction::Abort(BootError::DuplicateRuntimeInit)));
}

#[test]
fn missing_symbol_aborts() {
    let (stage, action) = boot_next(BootStage::AwaitLoader, BootEvent::LoaderResolved(None));
    assert_eq!(stage, BootStage::Aborted(BootError::Hook(HookError::SymbolNotFound)));
    assert!(matches!(action, BootAction::Abort(BootError::Hook(HookError::SymbolNotFound))));
}

#[test]
fn denied_hook_aborts() {
    let (stage, action) =
        boot_next(BootStage::AwaitHook, BootEvent::HookInstalled(Err(HookError::InstallDenied)));
    assert_eq!(stage, BootStage::Aborted(BootError::Hook(HookError::InstallDenied)));
    assert!(matches!(action, BootAction::Abort(BootError::Hook(HookError::InstallDenied))));
}

#[test]
fn out_of_order_event_changes_nothing() {
    let (stage, action) = boot_next(BootStage::Idle, BootEvent::LoaderResolved(Some(1)));
    assert_eq!(stage, BootStage::Idle);
    assert!(matches!(action, BootAction::Nothing));
    let (stage, action) = boot_next(BootStage::Ready, BootEvent::Start);
    assert_eq!(stage, BootStage::Ready);
    assert!(matches!(action, BootAction::Nothing));
}

#[test]
fn two_threads_first_load_see_one_install() {
    // Each caller first asks; the one told to install reports on its next turn,
    // so the other caller asks while the installation is still running.
    let mut cell = TrampolineCell::new();
    let mut installs = 0;
    let mut waits = 0;
    let mut seen: [Option<usize>; 2] = [None, None];
    let mut installing = [false, false];
    let mut turn = 0;
    while seen[0].is_none() || seen[1].is_none() {
        if seen[turn].is_none() {
            let action = if installing[turn] {
                cell.finish_install(Ok(0x5000))
            } else {
                cell.request()
            };
            match action {
                CellAction::Install => {
                    installs += 1;
                    installing[turn] = true;
                }
                CellAction::Wait => waits += 1,
                CellAction::Use(t) => seen[turn] = Some(t),
                CellAction::Fail => panic!("install cannot fail here"),
            }
        }
        turn = 1 - turn;
    }
    assert_eq!(installs, 1);
    assert_eq!(waits, 1);
    assert_eq!(seen, [Some(0x5000), Some(0x5000)]);
}
