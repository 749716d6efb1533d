//! What the generation service is told about the size of a model, and where
//! the blocks are found in its answer.

use vstd::prelude::*;
use crate::text::text_is;

verus! {

/// How many surface blocks of which scale a model of the given size should
/// have; a size that is not `small`, `medium` or `large` asks for a detailed
/// outer shell.
pub open spec fn surface_guidance_text(size: Seq<char>) -> Seq<char> {
    if size == "small"@ {
        "50-80 surface blocks with 0.25-0.35 scale"@
    } else if size == "medium"@ {
        "80-120 surface blocks with 0.2-0.3 scale"@
    } else if size == "large"@ {
        "120-200 surface blocks with 0.15-0.25 scale"@
    } else {
        "80+ surface blocks with detailed outer shell"@
    }
}

/// How much detail the code for a model of the given size should produce; a
/// size that is not `small`, `medium` or `large` is taken as `medium`.
pub open spec fn detail_guidance_text(size: Seq<char>) -> Seq<char> {
    if size == "small"@ {
        "Simple - use larger blocks, minimal detail, keep block count low for fast performance"@
    } else if size == "large"@ {
        "Detailed - use smaller blocks where needed for fine details, intricate features"@
    } else {
        "Moderate - balanced detail, good mix of block sizes for recognizable features"@
    }
}

/// Picks the guidance on block count and scale for a size.
pub fn surface_guidance(size: &str) -> (guidance: &'static str)
    ensures
        guidance@ == surface_guidance_text(size@),
{
    if text_is(size, "small") {
        "50-80 surface blocks with 0.25-0.35 scale"
    } else if text_is(size, "medium") {
        "80-120 surface blocks with 0.2-0.3 scale"
    } else if text_is(size, "large") {
        "120-200 surface blocks with 0.15-0.25 scale"
    } else {
        "80+ surface blocks with detailed outer shell"
    }
}

/// Picks the guidance on detail for a size.
pub fn detail_guidance(size: &str) -> (guidance: &'static str)
    ensures
        guidance@ == detail_guidance_text(size@),
{
    if text_is(size, "small") {
        "Simple - use larger blocks, minimal detail, keep block count low for fast performance"
    } else if text_is(size, "large") {
        "Detailed - use smaller blocks where needed for fine details, intricate features"
    } else {
        "Moderate - balanced detail, good mix of block sizes for recognizable features"
    }
}

/// Where the blocks stand in an answer that is a JSON object.
#[derive(Debug, Clone, Copy, PartialEq, Eq, Structural)]
pub enum BlocksSource {
    /// In the list under `blocks`.
    Blocks,
    /// In the list under `entities`.
    Entities,
    /// In the list under `model`.
    Model,
    /// The object is itself the one block of the model.
    Single,
    /// Nowhere: the answer holds no blocks.
    Missing,
}

/// Where the blocks stand, given which of the fields `blocks`, `entities`,
/// `model` and `block` the object has: in the first of the three lists that is
/// there; without any of them, the object is one block if it has the field
/// `block`.
pub open spec fn blocks_source_of(has_blocks: bool, has_entities: bool, has_model: bool, has_block: bool) -> BlocksSource {
    if has_blocks {
        BlocksSource::Blocks
    } else if has_entities {
        BlocksSource::Entities
    } else if has_model {
        BlocksSource::Model
    } else if has_block {
        BlocksSource::Single
    } else {
        BlocksSource::Missing
    }
}

/// Decides where the blocks stand in an answer.
pub fn blocks_source(has_blocks: bool, has_entities: bool, has_model: bool, has_block: bool) -> (source: BlocksSource)
    ensures
        source == blocks_source_of(has_blocks, has_entities, has_model, has_block),
{
    if has_blocks {
        BlocksSource::Blocks
    } else if has_entities {
        BlocksSource::Entities
    } else if has_model {
        BlocksSource::Model
    } else if has_block {
        BlocksSource::Single
    } else {
        BlocksSource::Missing
    }
}

} // verus!
