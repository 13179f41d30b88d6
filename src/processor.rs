//! Block processors: each turns one block's payload into the rows that the
//! store keeps for it. A processor is chosen by the name of the module whose
//! output the pipeline subscribes to.
use vstd::prelude::*;

use crate::reader::BlockData;

verus! {

/// Name of the module whose output is the block itself.
pub open spec fn block_output_module() -> Seq<char> {
    "block_to_block_output"@
}

/// The processors this library knows, one per module name.
#[derive(Debug, Clone, Copy, PartialEq, Eq, Structural)]
pub enum BlockProcessor {
    /// Stores each block's output as one row keyed by its height.
    BlockOutput,
}

/// A row of the block output table.
#[derive(Debug, Clone)]
pub struct BlockRow {
    pub height: u64,
    pub payload: Vec<u8>,
    pub cursor: String,
}

/// What one block writes: the rows kept under its height. Written again, it
/// replaces what an earlier write of the same height left.
#[derive(Debug, Clone)]
pub struct WritePlan {
    pub height: u64,
    pub rows: Vec<BlockRow>,
}

/// The store's record table as the contracts see it: the rows kept per height.
pub open spec fn spec_apply(store: Map<u64, Seq<BlockRow>>, plan: WritePlan) -> Map<u64, Seq<BlockRow>> {
    store.insert(plan.height, plan.rows@)
}

impl BlockProcessor {
    /// The processor registered for `name`, if any.
    pub open spec fn spec_for_module(name: Seq<char>) -> Option<BlockProcessor> {
        if name == block_output_module() {
            Some(BlockProcessor::BlockOutput)
        } else {
            None
        }
    }

    /// The rows that this processor makes of `block`, seen at `height`.
    pub open spec fn spec_rows(self, block: BlockData, height: u64) -> Seq<BlockRow> {
        match self {
            BlockProcessor::BlockOutput => seq![BlockRow { height, payload: block.payload, cursor: block.cursor }],
        }
    }

    /// The processor for module `name`; `None` where no processor is
    /// registered under that name.
    pub fn for_module(name: &String) -> (r: Option<BlockProcessor>)
        ensures
            r == Self::spec_for_module(name@),
    {
        let known: String = "block_to_block_output".to_owned();
        if *name == known {
            Some(BlockProcessor::BlockOutput)
        } else {
            None
        }
    }

    /// The write plan for `block` at `height`. It depends on these two alone,
    /// so a block that is processed again writes the same rows again.
    pub fn plan(&self, block: BlockData, height: u64) -> (r: WritePlan)
        ensures
            r.height == height,
            r.rows@ == self.spec_rows(block, height),
    {
        match self {
            BlockProcessor::BlockOutput => {
                let mut rows: Vec<BlockRow> = Vec::new();
                rows.push(BlockRow { height, payload: block.payload, cursor: block.cursor });
                WritePlan { height, rows }
            },
        }
    }
}

/// Processing a block a second time, as after a crash between the record
/// write and the marker update, leaves the store as processing it once did.
pub proof fn lemma_replay_is_idempotent(
    processor: BlockProcessor,
    store: Map<u64, Seq<BlockRow>>,
    block: BlockData,
    height: u64,
    first: WritePlan,
    second: WritePlan,
)
    requires
        first.height == height,
        first.rows@ == processor.spec_rows(block, height),
        second.height == height,
        second.rows@ == processor.spec_rows(block, height),
    ensures
        spec_apply(spec_apply(store, first), second) == spec_apply(store, first),
{
    assert(spec_apply(spec_apply(store, first), second) =~= spec_apply(store, first));
}

} // verus!
