//! The code that spawns the blocks of a model, one statement per block.

use vstd::prelude::*;
use vstd::string::*;
use crate::model::{BlockDisplayEntity, BlockProperty};
use crate::partition::{concat_all, lemma_concat_all_step};
use crate::templates::{spawn_statement, spawn_statement_text, transform_literal, transform_literal_text};

verus! {

/// One property override, written `name=value`.
pub open spec fn property_text(p: BlockProperty) -> Seq<char> {
    p.name@ + "="@ + p.value@
}

/// The property overrides in their order, separated by commas.
pub open spec fn joined_properties_text(props: Seq<BlockProperty>) -> Seq<char>
    decreases props.len(),
{
    if props.len() == 0 {
        Seq::empty()
    } else if props.len() == 1 {
        property_text(props[0])
    } else {
        joined_properties_text(props.drop_last()) + ","@ + property_text(props.last())
    }
}

/// The block state name of a block: the block id, followed by the property
/// overrides in square brackets if there are any.
pub open spec fn block_state_text(block: Seq<char>, properties: Option<Vec<BlockProperty>>) -> Seq<char> {
    match properties {
        Some(props) => if props@.len() == 0 {
            block
        } else {
            block + "["@ + joined_properties_text(props@) + "]"@
        },
        None => block,
    }
}

/// The display-entity data of a block: its scale, or the unit scale if it
/// has none, and its block state name.
pub open spec fn transform_text(entity: BlockDisplayEntity) -> Seq<char> {
    match entity.scale {
        Some(scale) => transform_literal_text(
            scale.x@,
            scale.y@,
            scale.z@,
            block_state_text(entity.block@, entity.properties),
        ),
        None => transform_literal_text("1"@, "1"@, "1"@, block_state_text(entity.block@, entity.properties)),
    }
}

/// The statement that spawns one block.
pub open spec fn entity_statement_text(pad: Seq<char>, entity: BlockDisplayEntity) -> Seq<char> {
    spawn_statement_text(pad, entity.x@, entity.y@, entity.z@, transform_text(entity))
}

/// The statements that spawn a list of blocks, one per block, in order.
pub open spec fn entity_statements(pad: Seq<char>, blocks: Seq<BlockDisplayEntity>) -> Seq<Seq<char>> {
    Seq::new(blocks.len(), |i: int| entity_statement_text(pad, blocks[i]))
}

/// The text of the statements that spawn a list of blocks.
pub open spec fn statements_text(pad: Seq<char>, blocks: Seq<BlockDisplayEntity>) -> Seq<char> {
    concat_all(entity_statements(pad, blocks))
}

/// Writes the property overrides, separated by commas.
pub fn joined_properties(props: &Vec<BlockProperty>) -> (text: String)
    ensures
        text@ == joined_properties_text(props@),
{
    let mut text = String::new();
    let mut i: usize = 0;
    while i < props.len()
        invariant
            i <= props.len(),
            text@ == joined_properties_text(props@.take(i as int)),
        decreases props.len() - i,
    {
        proof {
            assert(props@.take(i + 1).drop_last() =~= props@.take(i as int));
            assert(props@.take(i + 1).last() == props@[i as int]);
        }
        if i > 0 {
            text.append(",");
            text.append(props[i].name.as_str());
            text.append("=");
            text.append(props[i].value.as_str());
            assert(text@ =~= joined_properties_text(props@.take(i as int)) + ","@ + property_text(
                props@[i as int],
            ));
        } else {
            text.append(props[i].name.as_str());
            text.append("=");
            text.append(props[i].value.as_str());
            assert(text@ =~= property_text(props@[0]));
            assert(props@.take(1)[0] == props@[0]);
        }
        i += 1;
    }
    assert(props@.take(props.len() as int) =~= props@);
    text
}

/// Writes the block state name of a block.
pub fn block_state(block: &str, properties: &Option<Vec<BlockProperty>>) -> (text: String)
    ensures
        text@ == block_state_text(block@, *properties),
{
    let mut text = String::from_str(block);
    match properties {
        Some(props) => {
            if props.len() > 0 {
                let joined = joined_properties(props);
                text.append("[");
                text.append(joined.as_str());
                text.append("]");
            }
        },
        None => {},
    }
    text
}

/// Writes the display-entity data of a block: the scale, filled with the
/// unit scale where the block has none, fixed identity rotations and the
/// block state name.
pub fn encode_transform(entity: &BlockDisplayEntity) -> (text: String)
    ensures
        text@ == transform_text(*entity),
{
    let name = block_state(entity.block.as_str(), &entity.properties);
    match &entity.scale {
        Some(scale) => transform_literal(
            scale.x.as_str(),
            scale.y.as_str(),
            scale.z.as_str(),
            name.as_str(),
        ),
        None => transform_literal("1", "1", "1", name.as_str()),
    }
}

/// Emits the statement that spawns one block.
pub fn entity_statement(pad: &str, entity: &BlockDisplayEntity) -> (text: String)
    ensures
        text@ == entity_statement_text(pad@, *entity),
{
    let nbt = encode_transform(entity);
    spawn_statement(pad, entity.x.as_str(), entity.y.as_str(), entity.z.as_str(), nbt.as_str())
}

/// Emits the statements that spawn the blocks from `start` up to `end`.
pub fn emit_statements(pad: &str, blocks: &Vec<BlockDisplayEntity>, start: usize, end: usize) -> (text: String)
    requires
        start <= end <= blocks.len(),
    ensures
        text@ == statements_text(pad@, blocks@.subrange(start as int, end as int)),
{
    let ghost part = blocks@.subrange(start as int, end as int);
    let ghost list = entity_statements(pad@, part);
    let mut text = String::new();
    let mut i: usize = start;
    assert(concat_all(list.take(0)) =~= Seq::<char>::empty());
    while i < end
        invariant
            start <= i <= end <= blocks.len(),
            part == blocks@.subrange(start as int, end as int),
            list == entity_statements(pad@, part),
            text@ == concat_all(list.take(i - start)),
        decreases end - i,
    {
        let statement = entity_statement(pad, &blocks[i]);
        proof {
            lemma_concat_all_step(list, i - start);
            assert(part[i - start] == blocks@[i as int]);
        }
        text.append(statement.as_str());
        i += 1;
    }
    assert(list.take(end - start) =~= list);
    text
}

} // verus!
