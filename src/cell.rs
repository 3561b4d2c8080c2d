use vstd::prelude::*;
use crate::hook::HookError;

verus! {

/// Where the once-only trampoline resolution stands.
#[derive(Clone, Copy, Debug, PartialEq, Eq, Structural)]
pub enum CellState {
    /// Nobody has asked for the trampoline yet.
    Unresolved,
    /// One caller is installing the hook; others must wait for it.
    Installing,
    /// The hook is in place; the value is the trampoline's address.
    Resolved(usize),
    /// The installation failed; every later request fails too.
    Poisoned,
}

/// What the caller that touched the cell has to do next.
#[derive(Clone, Copy, Debug, PartialEq, Eq, Structural)]
pub enum CellAction {
    /// Install the hook, then report the outcome with `finish_install`.
    Install,
    /// Another caller is installing: block until it has reported.
    Wait,
    /// Call through the trampoline at this address.
    Use(usize),
    /// The trampoline can never be had: treat as a fatal load failure.
    Fail,
}

/// Something that happens to the cell.
pub enum CellEvent {
    /// A caller asks for the trampoline.
    Request,
    /// The installing caller reports how the installation went.
    Installed(Result<usize, HookError>),
}

/// One transition of the cell: the next state and the caller's action.
pub open spec fn cell_step(s: CellState, e: CellEvent) -> (CellState, CellAction) {
    match e {
        CellEvent::Request => match s {
            CellState::Unresolved => (CellState::Installing, CellAction::Install),
            CellState::Installing => (CellState::Installing, CellAction::Wait),
            CellState::Resolved(t) => (CellState::Resolved(t), CellAction::Use(t)),
            CellState::Poisoned => (CellState::Poisoned, CellAction::Fail),
        },
        CellEvent::Installed(outcome) => match s {
            CellState::Installing => match outcome {
                Ok(t) => (CellState::Resolved(t), CellAction::Use(t)),
                Err(_) => (CellState::Poisoned, CellAction::Fail),
            },
            _ => (s, CellAction::Wait),
        },
    }
}

/// The state reached and the actions handed out over a run of events.
pub open spec fn cell_run(s: CellState, events: Seq<CellEvent>) -> (CellState, Seq<CellAction>)
    decreases events.len(),
{
    if events.len() == 0 {
        (s, Seq::empty())
    } else {
        let (s1, a) = cell_step(s, events[0]);
        let (s2, rest) = cell_run(s1, events.drop_first());
        (s2, seq![a] + rest)
    }
}

/// A process-wide holder for the trampoline of the extended chunk loader:
/// the hook is installed by the first caller only, and every caller sees
/// the same trampoline afterwards.
pub struct TrampolineCell {
    state: CellState,
}

impl View for TrampolineCell {
    type V = CellState;

    closed spec fn view(&self) -> CellState {
        self.state
    }
}

impl TrampolineCell {
    /// A cell that nobody has asked yet.
    pub fn new() -> (r: TrampolineCell)
        ensures
            r@ == CellState::Unresolved,
    {
        TrampolineCell { state: CellState::Unresolved }
    }

    /// The current state.
    pub fn state(&self) -> (r: CellState)
        ensures
            r == self@,
    {
        self.state
    }

    /// A caller asks for the trampoline.
    pub fn request(&mut self) -> (r: CellAction)
        ensures
            (final(self)@, r) == cell_step(old(self)@, CellEvent::Request),
    {
        match self.state {
            CellState::Unresolved => {
                self.state = CellState::Installing;
                CellAction::Install
            },
            CellState::Installing => CellAction::Wait,
            CellState::Resolved(t) => CellAction::Use(t),
            CellState::Poisoned => CellAction::Fail,
        }
    }

    /// The caller that was told to install reports the outcome.
    pub fn finish_install(&mut self, outcome: Result<usize, HookError>) -> (r: CellAction)
        ensures
            (final(self)@, r) == cell_step(old(self)@, CellEvent::Installed(outcome)),
    {
        match self.state {
            CellState::Installing => match outcome {
                Ok(t) => {
                    self.state = CellState::Resolved(t);
                    CellAction::Use(t)
                },
                Err(_) => {
                    self.state = CellState::Poisoned;
                    CellAction::Fail
                },
            },
            _ => CellAction::Wait,
        }
    }
}

/// Once resolved, the cell stays resolved to the same trampoline and hands
/// out nothing but that trampoline.
pub proof fn lemma_resolved_is_stable(t: usize, events: Seq<CellEvent>)
    ensures
        cell_run(CellState::Resolved(t), events).0 == CellState::Resolved(t),
        forall|i: int|
            0 <= i < cell_run(CellState::Resolved(t), events).1.len() ==> {
                let a = #[trigger] cell_run(CellState::Resolved(t), events).1[i];
                a == CellAction::Use(t) || a == CellAction::Wait
            },
    decreases events.len(),
{
    if events.len() > 0 {
        lemma_resolved_is_stable(t, events.drop_first());
    }
}

/// Once left, the unresolved state is never entered again and no further
/// installation is asked for.
pub proof fn lemma_no_install_after_start(s: CellState, events: Seq<CellEvent>)
    requires
        s != CellState::Unresolved,
    ensures
        forall|i: int|
            0 <= i < cell_run(s, events).1.len() ==> #[trigger] cell_run(s, events).1[i]
                != CellAction::Install,
    decreases events.len(),
{
    if events.len() > 0 {
        let s1 = cell_step(s, events[0]).0;
        lemma_no_install_after_start(s1, events.drop_first());
        let acts = cell_run(s, events).1;
        let rest = cell_run(s1, events.drop_first()).1;
        assert forall|i: int| 0 <= i < acts.len() implies acts[i] != CellAction::Install by {
            if i > 0 {
                assert(acts[i] == rest[i - 1]);
            }
        }
    }
}

/// Every trampoline that a run hands out is the same one.
pub proof fn lemma_single_trampoline(s: CellState, events: Seq<CellEvent>)
    ensures
        forall|i: int, j: int|
            0 <= i < cell_run(s, events).1.len() && 0 <= j < cell_run(s, events).1.len()
                && (#[trigger] cell_run(s, events).1[i]) is Use
                && (#[trigger] cell_run(s, events).1[j]) is Use ==> cell_run(s, events).1[i]
                == cell_run(s, events).1[j],
    decreases events.len(),
{
    if events.len() > 0 {
        let (s1, a) = cell_step(s, events[0]);
        let tail = events.drop_first();
        lemma_single_trampoline(s1, tail);
        let acts = cell_run(s, events).1;
        let rest = cell_run(s1, tail).1;
        assert(acts.len() == rest.len() + 1);
        assert(acts[0] == a);
        assert forall|k: int| 0 < k < acts.len() implies acts[k] == rest[k - 1] by {}
        if a is Use {
            let t = a->Use_0;
            assert(s1 == CellState::Resolved(t));
            lemma_resolved_is_stable(t, tail);
            assert forall|k: int| 0 < k < acts.len() && acts[k] is Use implies acts[k] == a by {
                assert(acts[k] == rest[k - 1]);
            }
        }
    }
}

/// However many callers race for the trampoline, starting from a fresh cell
/// at most one of them is told to install the hook, one is told so as soon as
/// anyone asks, and all callers that get a trampoline get the same one.
pub proof fn law_install_once(events: Seq<CellEvent>)
    ensures
        forall|i: int, j: int|
            0 <= i < cell_run(CellState::Unresolved, events).1.len() && 0 <= j < cell_run(
                CellState::Unresolved,
                events,
            ).1.len() && #[trigger] cell_run(CellState::Unresolved, events).1[i]
                == CellAction::Install && #[trigger] cell_run(CellState::Unresolved, events).1[j]
                == CellAction::Install ==> i == j,
        (exists|k: int| 0 <= k < events.len() && #[trigger] events[k] is Request) ==> (exists|
            k: int,
        |
            0 <= k < cell_run(CellState::Unresolved, events).1.len() && #[trigger] cell_run(
                CellState::Unresolved,
                events,
            ).1[k] == CellAction::Install),
        forall|i: int, j: int|
            0 <= i < cell_run(CellState::Unresolved, events).1.len() && 0 <= j < cell_run(
                CellState::Unresolved,
                events,
            ).1.len() && (#[trigger] cell_run(CellState::Unresolved, events).1[i]) is Use
                && (#[trigger] cell_run(CellState::Unresolved, events).1[j]) is Use ==> cell_run(
                CellState::Unresolved,
                events,
            ).1[i] == cell_run(CellState::Unresolved, events).1[j],
    decreases events.len(),
{
    lemma_single_trampoline(CellState::Unresolved, events);
    if events.len() > 0 {
        let (s1, a) = cell_step(CellState::Unresolved, events[0]);
        let tail = events.drop_first();
        let acts = cell_run(CellState::Unresolved, events).1;
        let rest = cell_run(s1, tail).1;
        assert(acts[0] == a);
        assert forall|k: int| 0 < k < acts.len() implies acts[k] == rest[k - 1] by {}
        if events[0] is Request {
            lemma_no_install_after_start(s1, tail);
            assert forall|i: int, j: int|
                0 <= i < acts.len() && 0 <= j < acts.len() && acts[i] == CellAction::Install
                    && acts[j] == CellAction::Install implies i == j by {
                if i > 0 {
                    assert(rest[i - 1] != CellAction::Install);
                }
                if j > 0 {
                    assert(rest[j - 1] != CellAction::Install);
                }
            }
            assert(acts[0] == CellAction::Install);
        } else {
            assert(s1 == CellState::Unresolved);
            law_install_once(tail);
            assert forall|i: int, j: int|
                0 <= i < acts.len() && 0 <= j < acts.len() && acts[i] == CellAction::Install
                    && acts[j] == CellAction::Install implies i == j by {
                assert(acts[i] == rest[i - 1]);
                assert(acts[j] == rest[j - 1]);
            }
            if exists|k: int| 0 <= k < events.len() && #[trigger] events[k] is Request {
                let k = choose|k: int| 0 <= k < events.len() && #[trigger] events[k] is Request;
                assert(tail[k - 1] is Request);
                let m = choose|m: int| 0 <= m < rest.len() && #[trigger] rest[m] == CellAction::Install;
                assert(acts[m + 1] == CellAction::Install);
            }
        }
    }
}

} // verus!
