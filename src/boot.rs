use vstd::prelude::*;
use crate::hook::HookError;
use crate::runtime::{BootError, ModConfig, is_config_for, mod_config};

verus! {

/// How far bootstrap has come.
#[derive(Clone, Copy, Debug, PartialEq, Eq, Structural)]
pub enum BootStage {
    /// Not started.
    Idle,
    /// Waiting for the platform to name the storage directory.
    AwaitStorage,
    /// Waiting for the runtime dispatcher to be installed.
    AwaitRuntime,
    /// Waiting for the legacy loader symbol to be resolved.
    AwaitLoader,
    /// Waiting for the hook over the legacy loader.
    AwaitHook,
    /// The runtime and the hook are in place.
    Ready,
    /// Bootstrap failed; the process must abort.
    Aborted(BootError),
}

/// What the host side reports to the sequencer.
pub enum BootEvent {
    /// The module was attached.
    Start,
    /// The storage directory, if the platform could name it.
    StorageResolved(Option<String>),
    /// How installing the runtime dispatcher went.
    RuntimeInstalled(Result<(), BootError>),
    /// The legacy loader's address, if the engine exports it.
    LoaderResolved(Option<usize>),
    /// How hooking the legacy loader went; on success, its trampoline.
    HookInstalled(Result<usize, HookError>),
}

/// What the sequencer asks the host side to do next.
pub enum BootAction {
    /// Ask the platform for the storage directory.
    ResolveStorage,
    /// Build the runtime dispatcher with this configuration and install it.
    StartRuntime(ModConfig),
    /// Look up the legacy loader symbol in the engine library.
    ResolveLoader,
    /// Hook the loader at this address with the legacy detour.
    InstallHook(usize),
    /// Bootstrap is complete.
    Finish,
    /// Abort the process for this reason.
    Abort(BootError),
    /// The event does not belong to this stage: nothing to do.
    Nothing,
}

/// A plain description of an action; a configuration is described by the
/// storage root it was built for.
pub enum BootStep {
    ResolveStorage,
    StartRuntime(Seq<char>),
    ResolveLoader,
    InstallHook(usize),
    Finish,
    Abort(BootError),
    Nothing,
}

/// Whether an action is the one that a step describes.
pub open spec fn action_is(a: BootAction, s: BootStep) -> bool {
    match s {
        BootStep::ResolveStorage => a is ResolveStorage,
        BootStep::StartRuntime(root) => a matches BootAction::StartRuntime(c) && is_config_for(
            c,
            root,
        ),
        BootStep::ResolveLoader => a is ResolveLoader,
        BootStep::InstallHook(t) => a == BootAction::InstallHook(t),
        BootStep::Finish => a is Finish,
        BootStep::Abort(e) => a == BootAction::Abort(e),
        BootStep::Nothing => a is Nothing,
    }
}

/// One transition of bootstrap: any failure aborts, and an event that does
/// not belong to the current stage changes nothing.
pub open spec fn boot_step(stage: BootStage, event: BootEvent) -> (BootStage, BootStep) {
    match stage {
        BootStage::Idle => match event {
            BootEvent::Start => (BootStage::AwaitStorage, BootStep::ResolveStorage),
            _ => (stage, BootStep::Nothing),
        },
        BootStage::AwaitStorage => match event {
            BootEvent::StorageResolved(Some(root)) => (
                BootStage::AwaitRuntime,
                BootStep::StartRuntime(root@),
            ),
            BootEvent::StorageResolved(None) => (
                BootStage::Aborted(BootError::StorageUnresolvable),
                BootStep::Abort(BootError::StorageUnresolvable),
            ),
            _ => (stage, BootStep::Nothing),
        },
        BootStage::AwaitRuntime => match event {
            BootEvent::RuntimeInstalled(Ok(())) => (BootStage::AwaitLoader, BootStep::ResolveLoader),
            BootEvent::RuntimeInstalled(Err(e)) => (BootStage::Aborted(e), BootStep::Abort(e)),
            _ => (stage, BootStep::Nothing),
        },
        BootStage::AwaitLoader => match event {
            BootEvent::LoaderResolved(Some(addr)) => (
                BootStage::AwaitHook,
                BootStep::InstallHook(addr),
            ),
            BootEvent::LoaderResolved(None) => (
                BootStage::Aborted(BootError::Hook(HookError::SymbolNotFound)),
                BootStep::Abort(BootError::Hook(HookError::SymbolNotFound)),
            ),
            _ => (stage, BootStep::Nothing),
        },
        BootStage::AwaitHook => match event {
            BootEvent::HookInstalled(Ok(_)) => (BootStage::Ready, BootStep::Finish),
            BootEvent::HookInstalled(Err(e)) => (
                BootStage::Aborted(BootError::Hook(e)),
                BootStep::Abort(BootError::Hook(e)),
            ),
            _ => (stage, BootStep::Nothing),
        },
        _ => (stage, BootStep::Nothing),
    }
}

/// The stage reached and the steps taken over a run of events.
pub open spec fn boot_run(stage: BootStage, events: Seq<BootEvent>) -> (BootStage, Seq<BootStep>)
    decreases events.len(),
{
    if events.len() == 0 {
        (stage, Seq::empty())
    } else {
        let (s1, a) = boot_step(stage, events[0]);
        let (s2, rest) = boot_run(s1, events.drop_first());
        (s2, seq![a] + rest)
    }
}

/// Advances bootstrap by one event and says what to do next.
pub fn boot_next(stage: BootStage, event: BootEvent) -> (r: (BootStage, BootAction))
    ensures
        r.0 == boot_step(stage, event).0,
        action_is(r.1, boot_step(stage, event).1),
{
    match stage {
        BootStage::Idle => match event {
            BootEvent::Start => (BootStage::AwaitStorage, BootAction::ResolveStorage),
            _ => (stage, BootAction::Nothing),
        },
        BootStage::AwaitStorage => match event {
            BootEvent::StorageResolved(Some(root)) => (
                BootStage::AwaitRuntime,
                BootAction::StartRuntime(mod_config(root.as_str())),
            ),
            BootEvent::StorageResolved(None) => (
                BootStage::Aborted(BootError::StorageUnresolvable),
                BootAction::Abort(BootError::StorageUnresolvable),
            ),
            _ => (stage, BootAction::Nothing),
        },
        BootStage::AwaitRuntime => match event {
            BootEvent::RuntimeInstalled(Ok(())) => (BootStage::AwaitLoader, BootAction::ResolveLoader),
            BootEvent::RuntimeInstalled(Err(e)) => (BootStage::Aborted(e), BootAction::Abort(e)),
            _ => (stage, BootAction::Nothing),
        },
        BootStage::AwaitLoader => match event {
            BootEvent::LoaderResolved(Some(addr)) => (
                BootStage::AwaitHook,
                BootAction::InstallHook(addr),
            ),
            BootEvent::LoaderResolved(None) => (
                BootStage::Aborted(BootError::Hook(HookError::SymbolNotFound)),
                BootAction::Abort(BootError::Hook(HookError::SymbolNotFound)),
            ),
            _ => (stage, BootAction::Nothing),
        },
        BootStage::AwaitHook => match event {
            BootEvent::HookInstalled(Ok(_)) => (BootStage::Ready, BootAction::Finish),
            BootEvent::HookInstalled(Err(e)) => (
                BootStage::Aborted(BootError::Hook(e)),
                BootAction::Abort(BootError::Hook(e)),
            ),
            _ => (stage, BootAction::Nothing),
        },
        _ => (stage, BootAction::Nothing),
    }
}

/// The stages that bootstrap can be in before a storage directory is known.
pub open spec fn before_storage(stage: BootStage) -> bool {
    stage is Idle || stage is AwaitStorage || stage is Aborted
}

/// While no storage directory is known, no runtime is started and no hook
/// is asked for.
proof fn lemma_no_storage_no_hook(stage: BootStage, events: Seq<BootEvent>)
    requires
        before_storage(stage),
        forall|i: int| 0 <= i < events.len() ==> !(#[trigger] events[i] matches BootEvent::StorageResolved(Some(_))),
    ensures
        before_storage(boot_run(stage, events).0),
        forall|i: int|
            0 <= i < boot_run(stage, events).1.len() ==> {
                let a = #[trigger] boot_run(stage, events).1[i];
                !(a is StartRuntime) && !(a is InstallHook) && !(a is Finish)
            },
    decreases events.len(),
{
    if events.len() > 0 {
        let (s1, a) = boot_step(stage, events[0]);
        let tail = events.drop_first();
        assert(!(events[0] matches BootEvent::StorageResolved(Some(_))));
        assert forall|i: int| 0 <= i < tail.len() implies !(#[trigger] tail[i] matches BootEvent::StorageResolved(Some(_))) by {
            assert(tail[i] == events[i + 1]);
        }
        lemma_no_storage_no_hook(s1, tail);
        let acts = boot_run(stage, events).1;
        let rest = boot_run(s1, tail).1;
        assert forall|k: int| 0 < k < acts.len() implies acts[k] == rest[k - 1] by {}
    }
}

/// When the platform never names a storage directory, bootstrap never
/// starts a runtime, never hooks a loader and never completes: it can only
/// abort, so no detour is ever reachable.
pub proof fn law_unresolvable_storage_aborts(events: Seq<BootEvent>)
    requires
        forall|i: int| 0 <= i < events.len() ==> !(#[trigger] events[i] matches BootEvent::StorageResolved(Some(_))),
    ensures
        !(boot_run(BootStage::Idle, events).0 is Ready),
        forall|i: int|
            0 <= i < boot_run(BootStage::Idle, events).1.len() ==> {
                let a = #[trigger] boot_run(BootStage::Idle, events).1[i];
                !(a is StartRuntime) && !(a is InstallHook) && !(a is Finish)
            },
        boot_step(BootStage::AwaitStorage, BootEvent::StorageResolved(None)) == (
        BootStage::Aborted(BootError::StorageUnresolvable),
        BootStep::Abort(BootError::StorageUnresolvable),
        ),
{
    lemma_no_storage_no_hook(BootStage::Idle, events);
}

/// How far along a stage lies; no transition goes back.
pub open spec fn stage_rank(stage: BootStage) -> nat {
    match stage {
        BootStage::Idle => 0,
        BootStage::AwaitStorage => 1,
        BootStage::AwaitRuntime => 2,
        BootStage::AwaitLoader => 3,
        BootStage::AwaitHook => 4,
        _ => 5,
    }
}

/// Past the stage that starts the runtime, no runtime is started again; past
/// the stage that hooks the loader, no hook is asked for again.
proof fn lemma_no_repeat_after(stage: BootStage, events: Seq<BootEvent>)
    ensures
        forall|i: int|
            0 <= i < boot_run(stage, events).1.len() && stage_rank(stage) > 1 ==> !(
            #[trigger] boot_run(stage, events).1[i] is StartRuntime),
        forall|i: int|
            0 <= i < boot_run(stage, events).1.len() && stage_rank(stage) > 3 ==> !(
            #[trigger] boot_run(stage, events).1[i] is InstallHook),
    decreases events.len(),
{
    if events.len() > 0 {
        let s1 = boot_step(stage, events[0]).0;
        let tail = events.drop_first();
        lemma_no_repeat_after(s1, tail);
        let acts = boot_run(stage, events).1;
        let rest = boot_run(s1, tail).1;
        assert(stage_rank(s1) >= stage_rank(stage));
        assert forall|k: int| 0 < k < acts.len() implies acts[k] == rest[k - 1] by {}
    }
}

/// At most one step of a run starts the runtime, and at most one hooks the
/// loader.
proof fn lemma_unique_kind(stage: BootStage, events: Seq<BootEvent>, hook: bool)
    ensures
        forall|i: int, j: int|
            0 <= i < boot_run(stage, events).1.len() && 0 <= j < boot_run(stage, events).1.len()
                && step_kind(#[trigger] boot_run(stage, events).1[i], hook) && step_kind(
                #[trigger] boot_run(stage, events).1[j],
                hook,
            ) ==> i == j,
    decreases events.len(),
{
    if events.len() > 0 {
        let (s1, a) = boot_step(stage, events[0]);
        let tail = events.drop_first();
        lemma_unique_kind(s1, tail, hook);
        lemma_no_repeat_after(s1, tail);
        let acts = boot_run(stage, events).1;
        let rest = boot_run(s1, tail).1;
        assert(acts[0] == a);
        assert forall|k: int| 0 < k < acts.len() implies acts[k] == rest[k - 1] by {}
        assert forall|i: int, j: int|
            0 <= i < acts.len() && 0 <= j < acts.len() && step_kind(acts[i], hook) && step_kind(
                acts[j],
                hook,
            ) implies i == j by {
            if i == 0 || j == 0 {
                if step_kind(a, hook) {
                    if i > 0 {
                        assert(acts[i] == rest[i - 1]);
                    }
                    if j > 0 {
                        assert(acts[j] == rest[j - 1]);
                    }
                }
            } else {
                assert(acts[i] == rest[i - 1]);
                assert(acts[j] == rest[j - 1]);
            }
        }
    }
}

/// A step that starts the runtime (`hook` false) or hooks the loader
/// (`hook` true).
pub open spec fn step_kind(a: BootStep, hook: bool) -> bool {
    if hook {
        a is InstallHook
    } else {
        a is StartRuntime
    }
}

/// Whatever the host reports, one bootstrap run starts at most one runtime
/// and asks for at most one hook over the legacy loader.
pub proof fn law_single_runtime_and_hook(events: Seq<BootEvent>)
    ensures
        forall|i: int, j: int|
            0 <= i < boot_run(BootStage::Idle, events).1.len() && 0 <= j < boot_run(
                BootStage::Idle,
                events,
            ).1.len() && (#[trigger] boot_run(BootStage::Idle, events).1[i]) is StartRuntime
                && (#[trigger] boot_run(BootStage::Idle, events).1[j]) is StartRuntime ==> i == j,
        forall|i: int, j: int|
            0 <= i < boot_run(BootStage::Idle, events).1.len() && 0 <= j < boot_run(
                BootStage::Idle,
                events,
            ).1.len() && (#[trigger] boot_run(BootStage::Idle, events).1[i]) is InstallHook
                && (#[trigger] boot_run(BootStage::Idle, events).1[j]) is InstallHook ==> i == j,
{
    lemma_unique_kind(BootStage::Idle, events, false);
    lemma_unique_kind(BootStage::Idle, events, true);
}

} // verus!
