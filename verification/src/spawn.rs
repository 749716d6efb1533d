//! Spawning a block-display model: inline where the model is small, through
//! helper methods of bounded size where it is large.

use vstd::prelude::*;
use vstd::string::*;
use crate::blocks::{emit_statements, entity_statements, statements_text};
use crate::ident::{sanitize_id, sanitized};
use crate::lookup::{find_model, lookup_model};
use crate::model::{BlockDisplayEntity, BlockDisplayModel};
use crate::partition::{
    concat_all, lemma_concat_all_step, lemma_part_count, lemma_partition_covers, part_count,
    part_end, part_start, partition, plan_partitions,
};
use crate::templates::{
    helper_call, helper_call_text, helper_header, helper_header_text, inline_footer,
    inline_footer_text, inline_header, inline_header_text, model_missing, model_missing_text,
    spawn_header, spawn_header_text, spawn_success, spawn_success_text,
};
use crate::text::indent_unit;

verus! {

/// The largest number of blocks that one generated method spawns.
pub const BLOCKS_PER_METHOD: usize = 80;

/// The calls of the helper methods of a model, part 1 first.
pub open spec fn helper_calls(pad: Seq<char>, symbol: Seq<char>, parts: nat) -> Seq<Seq<char>> {
    Seq::new(parts, |i: int| helper_call_text(pad, symbol, i + 1))
}

/// The code at the place where a model is spawned. After the announcement, a
/// model of at most `k` blocks is spawned on the spot, one statement per
/// block inside a guarded block; a larger model is spawned by one call per
/// part, in the order of the parts.
pub open spec fn spawn_model_text(pad: Seq<char>, model: BlockDisplayModel, k: nat) -> Seq<char> {
    let n = model.blocks@.len();
    if n > k {
        spawn_header_text(pad, model.name@, n as int) + concat_all(
            helper_calls(pad, sanitized(model.id@), part_count(n, k)),
        ) + spawn_success_text(pad, n as int)
    } else {
        spawn_header_text(pad, model.name@, n as int) + inline_header_text(pad) + statements_text(
            pad,
            model.blocks@,
        ) + inline_footer_text(pad, n as int)
    }
}

/// The code that spawns the model with the id `id`: that of the first model
/// with this id, or the report of a missing model if there is none.
pub open spec fn spawn_text(pad: Seq<char>, models: Seq<BlockDisplayModel>, id: Seq<char>, k: nat) -> Seq<char> {
    match find_model(models, id) {
        Some(model) => spawn_model_text(pad, model, k),
        None => model_missing_text(pad, id),
    }
}

/// The line that closes a helper method.
pub open spec fn routine_footer() -> Seq<char> {
    "    }\n"@
}

/// The helper method that spawns one part of a model: its first line, one
/// statement per block of the part, and the closing line.
pub open spec fn routine_text(symbol: Seq<char>, part: int, blocks: Seq<BlockDisplayEntity>) -> Seq<char> {
    helper_header_text(symbol, part) + statements_text(indent_unit(), blocks) + routine_footer()
}

/// The helper methods of a model: none for a model of at most `k` blocks,
/// one per part for a larger one, numbered from 1 in the order of the parts.
pub open spec fn model_routines(model: BlockDisplayModel, k: nat) -> Seq<Seq<char>> {
    if model.blocks@.len() > k {
        Seq::new(
            part_count(model.blocks@.len(), k),
            |i: int| routine_text(sanitized(model.id@), i + 1, partition(model.blocks@, k)[i]),
        )
    } else {
        Seq::empty()
    }
}

/// The text of the helper methods of a model.
pub open spec fn model_helpers_text(model: BlockDisplayModel, k: nat) -> Seq<char> {
    concat_all(model_routines(model, k))
}

/// A model of at most `k` blocks has no helper method, and the place where it
/// is spawned holds one statement per block. A larger model has as many
/// helper methods as `n / k` rounded up, and their parts, one after the
/// other, are the blocks of the model in their order.
pub proof fn lemma_model_partitioning(pad: Seq<char>, model: BlockDisplayModel, k: nat)
    requires
        k > 0,
    ensures
        model.blocks@.len() <= k ==> model_routines(model, k).len() == 0,
        model.blocks@.len() <= k ==> model_helpers_text(model, k) == Seq::<char>::empty(),
        model.blocks@.len() <= k ==> entity_statements(pad, model.blocks@).len() == model.blocks@.len(),
        model.blocks@.len() <= k ==> spawn_model_text(pad, model, k) == spawn_header_text(
            pad,
            model.name@,
            model.blocks@.len() as int,
        ) + inline_header_text(pad) + concat_all(entity_statements(pad, model.blocks@))
            + inline_footer_text(pad, model.blocks@.len() as int),
        model.blocks@.len() > k ==> model_routines(model, k).len() == part_count(model.blocks@.len(), k),
        model.blocks@.len() > k ==> part_count(model.blocks@.len(), k) * k >= model.blocks@.len(),
        model.blocks@.len() > k ==> (part_count(model.blocks@.len(), k) - 1) * k < model.blocks@.len(),
        model.blocks@.len() > k ==> partition(model.blocks@, k).len() == model_routines(model, k).len(),
        model.blocks@.len() > k ==> concat_all(partition(model.blocks@, k)) == model.blocks@,
        model.blocks@.len() > k ==> helper_calls(
            pad,
            sanitized(model.id@),
            part_count(model.blocks@.len(), k),
        ).len() == model_routines(model, k).len(),
{
    lemma_part_count(model.blocks@.len(), k);
    lemma_partition_covers(model.blocks@, k);
}

/// Emits the calls of the helper methods 1 to `parts`.
pub fn emit_helper_calls(pad: &str, symbol: &str, parts: usize) -> (text: String)
    ensures
        text@ == concat_all(helper_calls(pad@, symbol@, parts as nat)),
{
    let ghost list = helper_calls(pad@, symbol@, parts as nat);
    let mut text = String::new();
    let mut part: usize = 0;
    assert(concat_all(list.take(0)) =~= Seq::<char>::empty());
    while part < parts
        invariant
            part <= parts,
            list == helper_calls(pad@, symbol@, parts as nat),
            text@ == concat_all(list.take(part as int)),
        decreases parts - part,
    {
        let call = helper_call(pad, symbol, part + 1);
        proof {
            lemma_concat_all_step(list, part as int);
        }
        text.append(call.as_str());
        part += 1;
    }
    assert(list.take(parts as int) =~= list);
    text
}

/// Emits the code at the place where `model` is spawned, with at most `k`
/// blocks per method.
pub fn spawn_model(pad: &str, model: &BlockDisplayModel, k: usize) -> (text: String)
    requires
        k > 0,
    ensures
        text@ == spawn_model_text(pad@, *model, k as nat),
{
    let n = model.blocks.len();
    let mut text = spawn_header(pad, model.name.as_str(), n);
    if n > k {
        let symbol = sanitize_id(model.id.as_str());
        let spans = plan_partitions(n, k);
        let calls = emit_helper_calls(pad, symbol.as_str(), spans.len());
        let success = spawn_success(pad, n);
        text.append(calls.as_str());
        text.append(success.as_str());
    } else {
        let header = inline_header(pad);
        let statements = emit_statements(pad, &model.blocks, 0, n);
        let footer = inline_footer(pad, n);
        assert(model.blocks@.subrange(0, n as int) =~= model.blocks@);
        text.append(header.as_str());
        text.append(statements.as_str());
        text.append(footer.as_str());
    }
    text
}

/// Emits the code that spawns the model with the id `id`. Where no model has
/// this id, the code reports that at run time and spawns nothing.
pub fn spawn_named_model(pad: &str, models: &Vec<BlockDisplayModel>, id: &str, k: usize) -> (text: String)
    requires
        k > 0,
    ensures
        text@ == spawn_text(pad@, models@, id@, k as nat),
{
    match lookup_model(models, id) {
        Some(model) => spawn_model(pad, model, k),
        None => model_missing(pad, id),
    }
}

/// Emits the helper methods of `model`, with at most `k` blocks each; nothing
/// for a model of at most `k` blocks.
pub fn model_helpers(model: &BlockDisplayModel, k: usize) -> (text: String)
    requires
        k > 0,
    ensures
        text@ == model_helpers_text(*model, k as nat),
{
    let n = model.blocks.len();
    let mut text = String::new();
    if n > k {
        let ghost list = model_routines(*model, k as nat);
        let symbol = sanitize_id(model.id.as_str());
        let spans = plan_partitions(n, k);
        let mut i: usize = 0;
        assert(concat_all(list.take(0)) =~= Seq::<char>::empty());
        while i < spans.len()
            invariant
                i <= spans.len(),
                n == model.blocks@.len(),
                n > k > 0,
                symbol@ == sanitized(model.id@),
                list == model_routines(*model, k as nat),
                spans@.len() == part_count(n as nat, k as nat),
                forall|j: int|
                    0 <= j < spans@.len() ==> (#[trigger] spans@[j]).start == part_start(j as nat, k as nat)
                        && spans@[j].end == part_end(j as nat, n as nat, k as nat),
                forall|j: int| 0 <= j < spans@.len() ==> (#[trigger] spans@[j]).start < spans@[j].end <= n,
                text@ == concat_all(list.take(i as int)),
            decreases spans.len() - i,
        {
            let span = spans[i];
            let mut routine = helper_header(symbol.as_str(), i + 1);
            let statements = emit_statements("    ", &model.blocks, span.start, span.end);
            routine.append(statements.as_str());
            routine.append("    }\n");
            proof {
                lemma_concat_all_step(list, i as int);
                assert(partition(model.blocks@, k as nat)[i as int] == model.blocks@.subrange(
                    span.start as int,
                    span.end as int,
                ));
                assert(routine@ == list[i as int]);
            }
            text.append(routine.as_str());
            i += 1;
        }
        assert(list.take(spans.len() as int) =~= list);
    } else {
        assert(concat_all(model_routines(*model, k as nat)) =~= Seq::<char>::empty());
    }
    text
}

} // verus!
