use vstd::prelude::*;
use crate::detour::{ChunkModel, PatchDecision, planned_chunk};

verus! {

/// Exit status used when a chunk load fails inside a detour.
pub const LOAD_FAILURE_EXIT_CODE: i32 = 0;

/// What a detour does once the dispatcher call has finished.
pub enum BarrierAction {
    /// Hand the status back to the host unchanged.
    Return(u32),
    /// Log the failure text and end the process with the given status.
    Terminate { detail: String, exit_code: i32 },
}

/// The text logged for a failure payload: the payload when it is text,
/// nothing otherwise.
pub open spec fn payload_text(payload: Option<String>) -> Seq<char> {
    match payload {
        Some(t) => t@,
        None => Seq::empty(),
    }
}

/// The status handed back to the host for an outcome, if control goes back
/// at all.
pub open spec fn returned_status(outcome: Result<u32, Option<String>>) -> Option<u32> {
    match outcome {
        Ok(status) => Some(status),
        Err(_) => None,
    }
}

/// Converts the outcome of a guarded dispatcher call into the action the
/// detour takes before control would go back into host frames: a status is
/// returned as it is, and any failure ends the process with the fixed exit
/// status and the failure's text.
pub fn settle(outcome: Result<u32, Option<String>>) -> (r: BarrierAction)
    ensures
        r is Return <==> returned_status(outcome) is Some,
        r is Return ==> Some(r->Return_0) == returned_status(outcome),
        r is Terminate ==> r->exit_code == LOAD_FAILURE_EXIT_CODE && r->detail@ == payload_text(
            outcome->Err_0,
        ),
{
    match outcome {
        Ok(status) => BarrierAction::Return(status),
        Err(payload) => {
            let detail = match payload {
                Some(text) => text,
                None => String::new(),
            };
            BarrierAction::Terminate { detail, exit_code: LOAD_FAILURE_EXIT_CODE }
        },
    }
}

/// When the patch engine leaves a chunk alone, the detour hands back exactly
/// the status that the original loader gives for the host's chunk.
pub proof fn law_unpatched_status(req: ChunkModel, loader: spec_fn(ChunkModel) -> u32)
    ensures
        returned_status(Ok(loader(planned_chunk(req, PatchDecision::Unchanged)))) == Some(
            loader(req),
        ),
{
}

/// When the patch engine rewrites a chunk, the detour hands back the status
/// that the original loader gives for the rewritten source, under the host's
/// name and mode.
pub proof fn law_rewritten_status(
    req: ChunkModel,
    src: Vec<u8>,
    loader: spec_fn(ChunkModel) -> u32,
)
    ensures
        returned_status(Ok(loader(planned_chunk(req, PatchDecision::Rewritten(src))))) == Some(
            loader(ChunkModel { buffer: src@, name: req.name, mode: req.mode }),
        ),
{
}

/// A failure inside the dispatcher never hands control back to the host.
pub proof fn law_failure_never_returns(payload: Option<String>)
    ensures
        returned_status(Err(payload)) is None,
{
}

} // verus!
