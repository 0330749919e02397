use vstd::prelude::*;

verus! {

/// The dimension of the embeddings that the stub embedder gives.
pub const STUB_DIMENSION: usize = 1536;

/// Stub embedder: stands for a real embedding service and gives zero vectors of a fixed
/// dimension.
pub struct StubEmbedder {
    pub dim: usize,
}

impl Default for StubEmbedder {
    fn default() -> (e: StubEmbedder)
        ensures
            e.dim == STUB_DIMENSION,
    {
        StubEmbedder { dim: STUB_DIMENSION }
    }
}

} // verus!
