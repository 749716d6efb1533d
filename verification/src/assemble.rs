//! The top of the compiler: wraps the action sequences of commands and
//! right-click events in their registration code and collects the helper
//! methods of the large models that they spawn.

use vstd::prelude::*;
use vstd::string::*;
use crate::emit::{emit_action, spaced_actions};
use crate::model::{Action, BlockDisplayModel, Command, ModData, RightClickEvent};
use crate::lookup::{first_match, lemma_first_match_is_first, lookup_index};
use crate::partition::{concat_all, lemma_concat_all_empty, lemma_concat_all_step, part_count};
use crate::references::{is_referenced, spawns_model};
use crate::spawn::{model_helpers, model_helpers_text, model_routines, BLOCKS_PER_METHOD};
use crate::templates::{
    command_footer, command_footer_text, command_header, command_header_text, event_footer,
    event_footer_text, event_header, event_header_text,
};

verus! {

/// The nesting level of the actions of a command.
pub const COMMAND_INDENT: usize = 4;

/// The nesting level of the actions of a right-click event.
pub const EVENT_INDENT: usize = 5;

/// What follows each action of a command.
pub open spec fn command_gap() -> Seq<char> {
    "\n                \n"@
}

/// What follows each action of a right-click event.
pub open spec fn event_gap() -> Seq<char> {
    "\n                    \n"@
}

/// The code of one command: its registration, its actions in order and the
/// success marker.
pub open spec fn command_text(command: Command, models: Seq<BlockDisplayModel>, k: nat) -> Seq<char> {
    command_header_text(command.command@) + concat_all(
        spaced_actions(command.actions@, COMMAND_INDENT as nat, models, k, command_gap()),
    ) + command_footer_text()
}

/// The code of a list of commands, in order.
pub open spec fn commands_text(commands: Seq<Command>, models: Seq<BlockDisplayModel>, k: nat) -> Seq<char> {
    concat_all(Seq::new(commands.len(), |i: int| command_text(commands[i], models, k)))
}

/// The code of one right-click event: the match on the item, its actions in
/// order and the markers for a handled and a passed-on use.
pub open spec fn event_text(event: RightClickEvent, models: Seq<BlockDisplayModel>, k: nat) -> Seq<char> {
    event_header_text(event.item@) + concat_all(
        spaced_actions(event.actions@, EVENT_INDENT as nat, models, k, event_gap()),
    ) + event_footer_text()
}

/// The code of a list of right-click events, in order.
pub open spec fn events_text(events: Seq<RightClickEvent>, models: Seq<BlockDisplayModel>, k: nat) -> Seq<char> {
    concat_all(Seq::new(events.len(), |i: int| event_text(events[i], models, k)))
}

/// Whether the model at position `i` gets helper methods: it has more than
/// `k` blocks, it is the first model with its id, and a command or a
/// right-click event spawns it.
pub open spec fn has_helpers(
    commands: Seq<Command>,
    events: Seq<RightClickEvent>,
    models: Seq<BlockDisplayModel>,
    i: int,
    k: nat,
) -> bool {
    &&& 0 <= i < models.len()
    &&& models[i].blocks@.len() > k
    &&& first_match(models, models[i].id@) == i
    &&& is_referenced(commands, events, models[i].id@)
}

/// What each model adds to the helper methods, in the order of the models:
/// its helper methods if it gets any, nothing otherwise.
pub open spec fn helper_pieces(
    commands: Seq<Command>,
    events: Seq<RightClickEvent>,
    models: Seq<BlockDisplayModel>,
    k: nat,
) -> Seq<Seq<char>> {
    Seq::new(
        models.len(),
        |i: int|
            if has_helpers(commands, events, models, i, k) {
                model_helpers_text(models[i], k)
            } else {
                Seq::empty()
            },
    )
}

/// The helper methods of a mod: those of every large model that the
/// commands and right-click events spawn, each model once, in the order of
/// the models.
pub open spec fn helpers_text(
    commands: Seq<Command>,
    events: Seq<RightClickEvent>,
    models: Seq<BlockDisplayModel>,
    k: nat,
) -> Seq<char> {
    concat_all(helper_pieces(commands, events, models, k))
}

/// Where nothing spawns a model, there are no helper methods, however large
/// the models are.
pub proof fn lemma_no_helpers_without_spawn(
    commands: Seq<Command>,
    events: Seq<RightClickEvent>,
    models: Seq<BlockDisplayModel>,
    k: nat,
)
    requires
        forall|i: int| 0 <= i < models.len() ==> !is_referenced(commands, events, models[i].id@),
    ensures
        helpers_text(commands, events, models, k) == Seq::<char>::empty(),
{
    lemma_concat_all_empty(helper_pieces(commands, events, models, k));
}

/// A model that gets helper methods gets one per part, as many as its
/// number of blocks divided by `k`, rounded up.
pub proof fn lemma_helpers_of_spawned_model(
    commands: Seq<Command>,
    events: Seq<RightClickEvent>,
    models: Seq<BlockDisplayModel>,
    i: int,
    k: nat,
)
    requires
        k > 0,
        has_helpers(commands, events, models, i, k),
    ensures
        helper_pieces(commands, events, models, k)[i] == concat_all(model_routines(models[i], k)),
        model_routines(models[i], k).len() == part_count(models[i].blocks@.len(), k),
{
}

/// Every helper method that is called is declared: the model that a spawned
/// id stands for gets helper methods if it has more than `k` blocks.
pub proof fn lemma_called_helpers_are_declared(
    commands: Seq<Command>,
    events: Seq<RightClickEvent>,
    models: Seq<BlockDisplayModel>,
    id: Seq<char>,
    k: nat,
)
    requires
        is_referenced(commands, events, id),
        first_match(models, id) < models.len(),
        models[first_match(models, id) as int].blocks@.len() > k,
    ensures
        has_helpers(commands, events, models, first_match(models, id) as int, k),
{
    lemma_first_match_is_first(models, id);
}

/// The body code of a mod: its commands, then its right-click events.
pub open spec fn body_code_text(
    commands: Seq<Command>,
    events: Seq<RightClickEvent>,
    models: Seq<BlockDisplayModel>,
    k: nat,
) -> Seq<char> {
    commands_text(commands, models, k) + events_text(events, models, k)
}

/// Whether `out` is what compiling the given sequences and models yields:
/// the body code and the helper methods.
pub open spec fn is_compiled(
    out: (String, String),
    commands: Seq<Command>,
    events: Seq<RightClickEvent>,
    models: Seq<BlockDisplayModel>,
    k: nat,
) -> bool {
    &&& out.0@ == body_code_text(commands, events, models, k)
    &&& out.1@ == helpers_text(commands, events, models, k)
}

/// Compiling is deterministic: two results for the same input hold the same
/// texts.
pub proof fn lemma_compile_deterministic(
    first: (String, String),
    second: (String, String),
    commands: Seq<Command>,
    events: Seq<RightClickEvent>,
    models: Seq<BlockDisplayModel>,
    k: nat,
)
    requires
        is_compiled(first, commands, events, models, k),
        is_compiled(second, commands, events, models, k),
    ensures
        first.0@ == second.0@,
        first.1@ == second.1@,
{
}

/// Emits a list of actions at one nesting level, each followed by `gap`.
fn emit_spaced(actions: &Vec<Action>, indent: usize, models: &Vec<BlockDisplayModel>, k: usize, gap: &str) -> (text: String)
    requires
        k > 0,
    ensures
        text@ == concat_all(spaced_actions(actions@, indent as nat, models@, k as nat, gap@)),
{
    let ghost list = spaced_actions(actions@, indent as nat, models@, k as nat, gap@);
    let mut text = String::new();
    let mut i: usize = 0;
    assert(concat_all(list.take(0)) =~= Seq::<char>::empty());
    while i < actions.len()
        invariant
            i <= actions.len(),
            k > 0,
            list == spaced_actions(actions@, indent as nat, models@, k as nat, gap@),
            text@ == concat_all(list.take(i as int)),
        decreases actions.len() - i,
    {
        let mut one = emit_action(&actions[i], indent, models, k);
        one.append(gap);
        proof {
            lemma_concat_all_step(list, i as int);
        }
        text.append(one.as_str());
        i += 1;
    }
    assert(list.take(actions.len() as int) =~= list);
    text
}

/// Emits the code of one command, with at most `k` blocks per method.
pub fn emit_command(command: &Command, models: &Vec<BlockDisplayModel>, k: usize) -> (text: String)
    requires
        k > 0,
    ensures
        text@ == command_text(*command, models@, k as nat),
{
    let mut text = command_header(command.command.as_str());
    let body = emit_spaced(&command.actions, COMMAND_INDENT, models, k, "\n                \n");
    let footer = command_footer();
    text.append(body.as_str());
    text.append(footer.as_str());
    text
}

/// Emits the code of one right-click event, with at most `k` blocks per
/// method.
pub fn emit_event(event: &RightClickEvent, models: &Vec<BlockDisplayModel>, k: usize) -> (text: String)
    requires
        k > 0,
    ensures
        text@ == event_text(*event, models@, k as nat),
{
    let mut text = event_header(event.item.as_str());
    let body = emit_spaced(&event.actions, EVENT_INDENT, models, k, "\n                    \n");
    let footer = event_footer();
    text.append(body.as_str());
    text.append(footer.as_str());
    text
}

/// Emits the code of `commands`, with at most `k` blocks per method.
pub fn emit_commands(commands: &[Command], models: &Vec<BlockDisplayModel>, k: usize) -> (text: String)
    requires
        k > 0,
    ensures
        text@ == commands_text(commands@, models@, k as nat),
{
    let ghost list = Seq::new(commands@.len(), |i: int| command_text(commands@[i], models@, k as nat));
    let mut text = String::new();
    let mut i: usize = 0;
    assert(concat_all(list.take(0)) =~= Seq::<char>::empty());
    while i < commands.len()
        invariant
            i <= commands.len(),
            k > 0,
            list == Seq::new(commands@.len(), |i: int| command_text(commands@[i], models@, k as nat)),
            text@ == concat_all(list.take(i as int)),
        decreases commands.len() - i,
    {
        let one = emit_command(&commands[i], models, k);
        proof {
            lemma_concat_all_step(list, i as int);
        }
        text.append(one.as_str());
        i += 1;
    }
    assert(list.take(commands.len() as int) =~= list);
    text
}

/// Emits the code of `events`, with at most `k` blocks per method.
pub fn emit_events(events: &[RightClickEvent], models: &Vec<BlockDisplayModel>, k: usize) -> (text: String)
    requires
        k > 0,
    ensures
        text@ == events_text(events@, models@, k as nat),
{
    let ghost list = Seq::new(events@.len(), |i: int| event_text(events@[i], models@, k as nat));
    let mut text = String::new();
    let mut i: usize = 0;
    assert(concat_all(list.take(0)) =~= Seq::<char>::empty());
    while i < events.len()
        invariant
            i <= events.len(),
            k > 0,
            list == Seq::new(events@.len(), |i: int| event_text(events@[i], models@, k as nat)),
            text@ == concat_all(list.take(i as int)),
        decreases events.len() - i,
    {
        let one = emit_event(&events[i], models, k);
        proof {
            lemma_concat_all_step(list, i as int);
        }
        text.append(one.as_str());
        i += 1;
    }
    assert(list.take(events.len() as int) =~= list);
    text
}

/// Emits the helper methods of the large models that `commands` and
/// `events` spawn, with at most `k` blocks each.
pub fn emit_helpers(
    commands: &[Command],
    events: &[RightClickEvent],
    models: &Vec<BlockDisplayModel>,
    k: usize,
) -> (text: String)
    requires
        k > 0,
    ensures
        text@ == helpers_text(commands@, events@, models@, k as nat),
{
    let ghost list = helper_pieces(commands@, events@, models@, k as nat);
    let mut text = String::new();
    let mut i: usize = 0;
    assert(concat_all(list.take(0)) =~= Seq::<char>::empty());
    while i < models.len()
        invariant
            i <= models.len(),
            k > 0,
            list == helper_pieces(commands@, events@, models@, k as nat),
            text@ == concat_all(list.take(i as int)),
        decreases models.len() - i,
    {
        let model = &models[i];
        let mut wanted = false;
        if model.blocks.len() > k {
            let first = lookup_index(models, model.id.as_str());
            if first == Some(i) {
                wanted = spawns_model(commands, events, model.id.as_str());
            }
        }
        proof {
            lemma_concat_all_step(list, i as int);
            assert(wanted == has_helpers(commands@, events@, models@, i as int, k as nat));
        }
        if wanted {
            let one = model_helpers(model, k);
            text.append(one.as_str());
        } else {
            assert(text@ + Seq::<char>::empty() =~= text@);
        }
        i += 1;
    }
    assert(list.take(models.len() as int) =~= list);
    text
}

/// Emits the registration code of the given commands, with the models of
/// `mod_data`.
pub fn generate_commands_java(commands: &[Command], mod_data: &ModData) -> (text: String)
    ensures
        text@ == commands_text(commands@, mod_data.block_display_models@, BLOCKS_PER_METHOD as nat),
{
    emit_commands(commands, &mod_data.block_display_models, BLOCKS_PER_METHOD)
}

/// Emits the handler code of the given right-click events, with the models
/// of `mod_data`.
pub fn generate_right_click_events_java(events: &[RightClickEvent], mod_data: &ModData) -> (text: String)
    ensures
        text@ == events_text(events@, mod_data.block_display_models@, BLOCKS_PER_METHOD as nat),
{
    emit_events(events, &mod_data.block_display_models, BLOCKS_PER_METHOD)
}

/// Emits the helper methods of the large models that the commands and
/// right-click events of `mod_data` spawn.
pub fn generate_model_helper_methods(mod_data: &ModData) -> (text: String)
    ensures
        text@ == helpers_text(
            mod_data.commands@,
            mod_data.right_click_events@,
            mod_data.block_display_models@,
            BLOCKS_PER_METHOD as nat,
        ),
{
    emit_helpers(
        mod_data.commands.as_slice(),
        mod_data.right_click_events.as_slice(),
        &mod_data.block_display_models,
        BLOCKS_PER_METHOD,
    )
}

/// Compiles commands and right-click events into the body code and the
/// helper methods, with at most `k` blocks per method.
pub fn compile_with(
    commands: &[Command],
    events: &[RightClickEvent],
    models: &Vec<BlockDisplayModel>,
    k: usize,
) -> (out: (String, String))
    requires
        k > 0,
    ensures
        is_compiled(out, commands@, events@, models@, k as nat),
{
    let mut body = emit_commands(commands, models, k);
    let handlers = emit_events(events, models, k);
    body.append(handlers.as_str());
    let helpers = emit_helpers(commands, events, models, k);
    (body, helpers)
}

/// Compiles the commands and right-click events of a mod into the body code
/// and the helper methods.
pub fn compile(mod_data: &ModData) -> (out: (String, String))
    ensures
        is_compiled(
            out,
            mod_data.commands@,
            mod_data.right_click_events@,
            mod_data.block_display_models@,
            BLOCKS_PER_METHOD as nat,
        ),
{
    compile_with(
        mod_data.commands.as_slice(),
        mod_data.right_click_events.as_slice(),
        &mod_data.block_display_models,
        BLOCKS_PER_METHOD,
    )
}

} // verus!
