use vstd::prelude::*;
use vstd::slice::slice_to_vec;

verus! {

/// One chunk submitted to the engine's loader, copied out of the borrowed
/// arguments of a single loader call.
pub struct LoadRequest {
    pub buffer: Vec<u8>,
    pub name: Vec<u8>,
    pub mode: Option<Vec<u8>>,
}

/// The plain contents of a request.
pub struct ChunkModel {
    pub buffer: Seq<u8>,
    pub name: Seq<u8>,
    pub mode: Option<Seq<u8>>,
}

impl View for LoadRequest {
    type V = ChunkModel;

    open spec fn view(&self) -> ChunkModel {
        ChunkModel {
            buffer: self.buffer@,
            name: self.name@,
            mode: match self.mode {
                Some(m) => Some(m@),
                None => None,
            },
        }
    }
}

/// What the patch engine made of a chunk.
pub enum PatchDecision {
    /// No patch applies: the chunk loads as the host gave it.
    Unchanged,
    /// The chunk's source was rewritten to these bytes.
    Rewritten(Vec<u8>),
}

/// The chunk that reaches the original loader.
pub open spec fn planned_chunk(req: ChunkModel, decision: PatchDecision) -> ChunkModel {
    match decision {
        PatchDecision::Unchanged => req,
        PatchDecision::Rewritten(src) => ChunkModel { buffer: src@, ..req },
    }
}

fn copy_bytes(b: &[u8]) -> (r: Vec<u8>)
    ensures
        r@ == b@,
{
    slice_to_vec(b)
}

/// The request of the legacy four-argument loader, which has no mode.
pub fn legacy_request(buffer: &[u8], name: &[u8]) -> (r: LoadRequest)
    ensures
        r@ == (ChunkModel { buffer: buffer@, name: name@, mode: None }),
{
    LoadRequest { buffer: copy_bytes(buffer), name: copy_bytes(name), mode: None }
}

/// The request of the extended five-argument loader; an absent mode stays
/// absent.
pub fn extended_request(buffer: &[u8], name: &[u8], mode: Option<&[u8]>) -> (r: LoadRequest)
    ensures
        r@.buffer == buffer@,
        r@.name == name@,
        r@.mode == match mode {
            Some(m) => Some(m@),
            None => None::<Seq<u8>>,
        },
{
    let mode_copy = match mode {
        Some(m) => Some(copy_bytes(m)),
        None => None,
    };
    LoadRequest { buffer: copy_bytes(buffer), name: copy_bytes(name), mode: mode_copy }
}

/// The request to hand to the original loader once the patch engine has
/// decided: the host's chunk when nothing applies, the rewritten source
/// otherwise, with name and mode kept.
pub fn chunk_to_load(req: LoadRequest, decision: PatchDecision) -> (r: LoadRequest)
    ensures
        r@ == planned_chunk(req@, decision),
{
    match decision {
        PatchDecision::Unchanged => req,
        PatchDecision::Rewritten(src) => LoadRequest { buffer: src, name: req.name, mode: req.mode },
    }
}

} // verus!
