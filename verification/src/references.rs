//! Which models the action trees spawn.

use vstd::prelude::*;
use crate::model::{children, Action, Command, RightClickEvent};
use crate::text::text_is;

verus! {

/// Whether an action spawns the model with the id `id`: it is a spawn leaf
/// with this id, or one of the actions nested under it, at any depth, is.
pub open spec fn action_names(action: Action, id: Seq<char>) -> bool
    decreases action, children(action).len() + 1,
{
    match action {
        Action::SpawnBlockDisplayModel { model_id } => model_id@ == id,
        _ => children_name(action, children(action).len(), id),
    }
}

/// Whether one of the first `upto` actions nested under `parent` spawns the
/// model with the id `id`.
pub open spec fn children_name(parent: Action, upto: nat, id: Seq<char>) -> bool
    decreases parent, upto,
{
    if upto == 0 || upto > children(parent).len() {
        false
    } else {
        children_name(parent, (upto - 1) as nat, id) || action_names(children(parent)[upto - 1], id)
    }
}

/// Whether one of the actions of a list spawns the model with the id `id`.
pub open spec fn actions_name(actions: Seq<Action>, id: Seq<char>) -> bool {
    exists|i: int| 0 <= i < actions.len() && #[trigger] action_names(actions[i], id)
}

/// Whether one of the commands spawns the model with the id `id`.
pub open spec fn commands_name(commands: Seq<Command>, id: Seq<char>) -> bool {
    exists|i: int| 0 <= i < commands.len() && #[trigger] actions_name(commands[i].actions@, id)
}

/// Whether one of the right-click events spawns the model with the id `id`.
pub open spec fn events_name(events: Seq<RightClickEvent>, id: Seq<char>) -> bool {
    exists|i: int| 0 <= i < events.len() && #[trigger] actions_name(events[i].actions@, id)
}

/// Whether the model with the id `id` is spawned anywhere in the commands
/// and right-click events.
pub open spec fn is_referenced(commands: Seq<Command>, events: Seq<RightClickEvent>, id: Seq<char>) -> bool {
    commands_name(commands, id) || events_name(events, id)
}

/// The actions nested under an action spawn a model exactly if one of them
/// does.
pub proof fn lemma_children_name(parent: Action, upto: nat, id: Seq<char>)
    requires
        upto <= children(parent).len(),
    ensures
        children_name(parent, upto, id) <==> actions_name(children(parent).take(upto as int), id),
        upto == children(parent).len() ==> (children_name(parent, upto, id) <==> actions_name(
            children(parent),
            id,
        )),
    decreases upto,
{
    let all = children(parent);
    let some = all.take(upto as int);
    if upto > 0 {
        let fewer = all.take(upto - 1);
        lemma_children_name(parent, (upto - 1) as nat, id);
        if children_name(parent, upto, id) {
            if action_names(all[upto - 1], id) {
                assert(action_names(some[upto - 1], id));
            } else {
                let w = choose|i: int| 0 <= i < fewer.len() && #[trigger] action_names(fewer[i], id);
                assert(action_names(some[w], id));
            }
        }
        if actions_name(some, id) {
            let w = choose|i: int| 0 <= i < some.len() && #[trigger] action_names(some[i], id);
            if w < upto - 1 {
                assert(action_names(fewer[w], id));
            }
        }
    }
    if upto == all.len() {
        assert(some =~= all);
    }
}

/// Without commands and right-click events no model is spawned.
pub proof fn lemma_nothing_referenced(id: Seq<char>)
    ensures
        !is_referenced(Seq::<Command>::empty(), Seq::<RightClickEvent>::empty(), id),
{
}

/// Tests whether one of the actions nested under `parent` spawns the model.
fn nested_name(parent: &Action, actions: &Vec<Action>, id: &str) -> (named: bool)
    requires
        actions@ == children(*parent),
    ensures
        named == children_name(*parent, actions@.len(), id@),
    decreases parent, 0nat,
{
    let mut named = false;
    let mut i: usize = 0;
    while i < actions.len()
        invariant
            i <= actions.len(),
            actions@ == children(*parent),
            named == children_name(*parent, i as nat, id@),
        decreases actions.len() - i,
    {
        if names_model(&actions[i], id) {
            named = true;
        }
        i += 1;
    }
    named
}

/// Tests whether `action` spawns the model with the id `id`, itself or
/// through an action nested under it.
pub fn names_model(action: &Action, id: &str) -> (named: bool)
    ensures
        named == action_names(*action, id@),
    decreases action, 1nat,
{
    match action {
        Action::SpawnBlockDisplayModel { model_id } => text_is(model_id.as_str(), id),
        Action::Repeat { actions, .. } => nested_name(action, actions, id),
        Action::RepeatForever { actions } => nested_name(action, actions, id),
        Action::IfThen { actions, .. } => nested_name(action, actions, id),
        _ => false,
    }
}

/// Tests whether one of `actions` spawns the model with the id `id`.
pub fn sequence_names(actions: &Vec<Action>, id: &str) -> (named: bool)
    ensures
        named == actions_name(actions@, id@),
{
    let mut i: usize = 0;
    while i < actions.len()
        invariant
            i <= actions.len(),
            forall|j: int| 0 <= j < i ==> !action_names(actions@[j], id@),
        decreases actions.len() - i,
    {
        if names_model(&actions[i], id) {
            return true;
        }
        i += 1;
    }
    false
}

/// Tests whether the model with the id `id` is spawned anywhere in the
/// commands and right-click events.
pub fn spawns_model(commands: &[Command], events: &[RightClickEvent], id: &str) -> (named: bool)
    ensures
        named == is_referenced(commands@, events@, id@),
{
    let mut i: usize = 0;
    while i < commands.len()
        invariant
            i <= commands.len(),
            forall|j: int| 0 <= j < i ==> !actions_name(commands@[j].actions@, id@),
        decreases commands.len() - i,
    {
        if sequence_names(&commands[i].actions, id) {
            return true;
        }
        i += 1;
    }
    let mut j: usize = 0;
    while j < events.len()
        invariant
            j <= events.len(),
            !commands_name(commands@, id@),
            forall|e: int| 0 <= e < j ==> !actions_name(events@[e].actions@, id@),
        decreases events.len() - j,
    {
        if sequence_names(&events[j].actions, id) {
            return true;
        }
        j += 1;
    }
    false
}

} // verus!
