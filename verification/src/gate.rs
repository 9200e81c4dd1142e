//! The seekable-container decision point: decides, per container kind, whether the
//! prepared source can be used as it stands or must be fully materialized
//! before the container can be opened.

use vstd::prelude::*;

use crate::format::{chain_wf, CompressionFormat, FormatChain};

verus! {

/// Where a materialized copy of the composed decoder output goes.
#[derive(Clone, Copy, Debug, PartialEq, Eq, Structural)]
pub enum BufferTarget {
    /// Read the entire composed output into memory.
    Memory,
    /// Spill the composed output to a temporary file, to bound memory.
    TempFile,
}

/// The decision taken for one chain.
#[derive(Clone, Copy, Debug, PartialEq, Eq, Structural)]
pub enum GatePlan {
    /// The base file is the container itself: open it directly, no stream
    /// layers, no buffering, no question.
    Direct,
    /// The container can consume a forward stream: compose the decoder chain
    /// and pass it straight to the container reader, no buffering, no question.
    Stream,
    /// The container needs random access but stream layers are stacked on it:
    /// consult the question policy once and, if allowed, materialize the
    /// composed output at the given target before opening the container.
    BufferAfterConfirm(BufferTarget),
}

impl GatePlan {
    /// Whether the plan materializes the composed output.
    pub open spec fn spec_buffers(self) -> bool {
        self matches GatePlan::BufferAfterConfirm(_)
    }

    /// How many times the plan consults the question policy.
    pub open spec fn spec_consultations(self) -> nat {
        if self.spec_buffers() {
            1
        } else {
            0
        }
    }
}

/// The decision's policy table. A one-layer chain is the container itself, read
/// directly from the file. The tar-like container consumes the composed
/// stream. Every seeking container under stream layers must be materialized:
/// in memory, or in a temporary file for the rar-like kind.
pub open spec fn spec_gate_plan(chain: Seq<CompressionFormat>) -> GatePlan {
    if chain.len() <= 1 {
        GatePlan::Direct
    } else if chain[0] == CompressionFormat::Tar {
        GatePlan::Stream
    } else if chain[0] == CompressionFormat::Rar {
        GatePlan::BufferAfterConfirm(BufferTarget::TempFile)
    } else {
        GatePlan::BufferAfterConfirm(BufferTarget::Memory)
    }
}

/// Decide how the container of this chain will receive its bytes.
pub fn gate_plan(chain: &FormatChain) -> (p: GatePlan)
    ensures
        p == spec_gate_plan(chain@),
{
    if chain.len() <= 1 {
        GatePlan::Direct
    } else {
        match chain.format_at(0) {
            CompressionFormat::Tar => GatePlan::Stream,
            CompressionFormat::Rar => GatePlan::BufferAfterConfirm(BufferTarget::TempFile),
            _ => GatePlan::BufferAfterConfirm(BufferTarget::Memory),
        }
    }
}

/// For every valid single-container chain with no stream layers, the decision
/// chooses the direct-from-file path: it does not buffer and does not consult
/// the question policy.
pub proof fn lemma_single_container_is_direct(chain: Seq<CompressionFormat>)
    requires
        chain_wf(chain),
        chain.len() == 1,
        chain[0].spec_is_archive(),
    ensures
        spec_gate_plan(chain) == GatePlan::Direct,
        !spec_gate_plan(chain).spec_buffers(),
        spec_gate_plan(chain).spec_consultations() == 0,
{
}

/// For every chain with at least one stream layer stacked on a seeking
/// container kind, the plan takes the buffering path and consults the
/// question policy exactly once.
pub proof fn lemma_layered_seeking_container_buffers(chain: Seq<CompressionFormat>)
    requires
        chain_wf(chain),
        chain.len() >= 2,
        chain[0].spec_requires_seeking(),
    ensures
        spec_gate_plan(chain).spec_buffers(),
        spec_gate_plan(chain).spec_consultations() == 1,
        chain[0] == CompressionFormat::Rar
            ==> spec_gate_plan(chain) == GatePlan::BufferAfterConfirm(BufferTarget::TempFile),
        chain[0] != CompressionFormat::Rar
            ==> spec_gate_plan(chain) == GatePlan::BufferAfterConfirm(BufferTarget::Memory),
{
}

} // verus!
