//! The report on what a mod holds, shown after it was built.

use vstd::prelude::*;
use vstd::string::*;
use crate::model::{Command, CustomItem, CustomMob, ModData, RightClickEvent};
use crate::partition::{concat_all, lemma_concat_all_step};
use crate::text::{append_count, decimal};

verus! {

/// The lines that count the items, mobs, commands and right-click events.
pub open spec fn counts_text(items: int, mobs: int, commands: int, events: int) -> Seq<char> {
    decimal(items) + " custom items\n"@ + decimal(mobs) + " custom mobs\n"@ + decimal(commands)
        + " commands\n"@ + decimal(events) + " right-click events\n"@
}

/// The short name of an item: what follows the last colon of its id, or the
/// whole id if it holds no colon.
pub open spec fn short_item_name(item: Seq<char>) -> Seq<char>
    decreases item.len(),
{
    if item.len() == 0 {
        Seq::empty()
    } else if item.last() == ':' {
        Seq::empty()
    } else {
        short_item_name(item.drop_last()).push(item.last())
    }
}

/// The report line of a command: its name and the number of its actions.
pub open spec fn command_line_text(name: Seq<char>, actions: int) -> Seq<char> {
    "  /"@ + name + " - "@ + decimal(actions) + " actions\n"@
}

/// The report line of a right-click event: the short name of its item and
/// the number of its actions.
pub open spec fn event_line_text(item_name: Seq<char>, actions: int) -> Seq<char> {
    "  "@ + item_name + " - "@ + decimal(actions) + " actions\n"@
}

/// The report line of an item or a mob: its name.
pub open spec fn name_line_text(name: Seq<char>) -> Seq<char> {
    "  "@ + name + "\n"@
}

/// The report lines of the commands, in order.
pub open spec fn command_lines(commands: Seq<Command>) -> Seq<Seq<char>> {
    Seq::new(commands.len(), |i: int| command_line_text(commands[i].command@, commands[i].actions@.len() as int))
}

/// The report lines of the right-click events, in order.
pub open spec fn event_lines(events: Seq<RightClickEvent>) -> Seq<Seq<char>> {
    Seq::new(
        events.len(),
        |i: int| event_line_text(short_item_name(events[i].item@), events[i].actions@.len() as int),
    )
}

/// The report lines of the items, in order.
pub open spec fn item_lines(items: Seq<CustomItem>) -> Seq<Seq<char>> {
    Seq::new(items.len(), |i: int| name_line_text(items[i].name@))
}

/// The report lines of the mobs, in order.
pub open spec fn mob_lines(mobs: Seq<CustomMob>) -> Seq<Seq<char>> {
    Seq::new(mobs.len(), |i: int| name_line_text(mobs[i].name@))
}

/// A section of the report: its title and its lines, or nothing at all where
/// there are no lines.
pub open spec fn section_text(title: Seq<char>, lines: Seq<Seq<char>>) -> Seq<char> {
    if lines.len() == 0 {
        Seq::empty()
    } else {
        title + concat_all(lines)
    }
}

/// The report on a mod under the given headline: the counts, then one
/// section each for the commands, the right-click events, the items and the
/// mobs that there are.
pub open spec fn summary_text(headline: Seq<char>, mod_data: ModData) -> Seq<char> {
    headline + "\n\n"@ + counts_text(
        mod_data.custom_items@.len() as int,
        mod_data.custom_mobs@.len() as int,
        mod_data.commands@.len() as int,
        mod_data.right_click_events@.len() as int,
    ) + section_text("\nCommands:\n"@, command_lines(mod_data.commands@)) + section_text(
        "\nRight-Click Events:\n"@,
        event_lines(mod_data.right_click_events@),
    ) + section_text("\nItems:\n"@, item_lines(mod_data.custom_items@)) + section_text(
        "\nMobs:\n"@,
        mob_lines(mod_data.custom_mobs@),
    )
}

/// Cuts the short name out of the id of an item.
pub fn item_short_name(item: &str) -> (name: &str)
    ensures
        name@ == short_item_name(item@),
{
    let n = item.unicode_len();
    let mut start: usize = 0;
    let mut i: usize = 0;
    assert(item@.take(0) =~= Seq::<char>::empty());
    assert(item@.subrange(0, 0) =~= Seq::<char>::empty());
    while i < n
        invariant
            n == item@.len(),
            start <= i <= n,
            short_item_name(item@.take(i as int)) == item@.subrange(start as int, i as int),
        decreases n - i,
    {
        let c = item.get_char(i);
        proof {
            assert(item@.take(i + 1).drop_last() =~= item@.take(i as int));
            assert(item@.take(i + 1).last() == c);
        }
        if c == ':' {
            start = i + 1;
            assert(item@.subrange(start as int, i + 1) =~= Seq::<char>::empty());
        } else {
            assert(item@.subrange(start as int, i + 1) =~= item@.subrange(start as int, i as int).push(c));
        }
        i += 1;
    }
    assert(item@.take(n as int) =~= item@);
    item.substring_char(start, n)
}

/// Writes the lines that count the items, mobs, commands and right-click
/// events.
pub fn counts(items: usize, mobs: usize, commands: usize, events: usize) -> (text: String)
    ensures
        text@ == counts_text(items as int, mobs as int, commands as int, events as int),
{
    let mut text = String::new();
    append_count(&mut text, items);
    text.append(" custom items\n");
    append_count(&mut text, mobs);
    text.append(" custom mobs\n");
    append_count(&mut text, commands);
    text.append(" commands\n");
    append_count(&mut text, events);
    text.append(" right-click events\n");
    assert(text@ =~= counts_text(items as int, mobs as int, commands as int, events as int));
    text
}

/// Writes the report line of a command.
pub fn command_line(name: &str, actions: usize) -> (text: String)
    ensures
        text@ == command_line_text(name@, actions as int),
{
    let mut text = String::from_str("  /");
    text.append(name);
    text.append(" - ");
    append_count(&mut text, actions);
    text.append(" actions\n");
    text
}

/// Writes the report line of a right-click event.
pub fn event_line(item_name: &str, actions: usize) -> (text: String)
    ensures
        text@ == event_line_text(item_name@, actions as int),
{
    let mut text = String::from_str("  ");
    text.append(item_name);
    text.append(" - ");
    append_count(&mut text, actions);
    text.append(" actions\n");
    text
}

/// Writes the report line of an item or a mob.
pub fn name_line(name: &str) -> (text: String)
    ensures
        text@ == name_line_text(name@),
{
    let mut text = String::from_str("  ");
    text.append(name);
    text.append("\n");
    text
}

fn commands_section(commands: &Vec<Command>) -> (text: String)
    ensures
        text@ == section_text("\nCommands:\n"@, command_lines(commands@)),
{
    let ghost list = command_lines(commands@);
    let mut text = String::new();
    if commands.len() > 0 {
        let mut lines = String::new();
        let mut i: usize = 0;
        assert(concat_all(list.take(0)) =~= Seq::<char>::empty());
        while i < commands.len()
            invariant
                i <= commands.len(),
                list == command_lines(commands@),
                lines@ == concat_all(list.take(i as int)),
            decreases commands.len() - i,
        {
            let line = command_line(commands[i].command.as_str(), commands[i].actions.len());
            proof {
                lemma_concat_all_step(list, i as int);
            }
            lines.append(line.as_str());
            i += 1;
        }
        assert(list.take(commands.len() as int) =~= list);
        text = String::from_str("\nCommands:\n");
        text.append(lines.as_str());
    }
    text
}

fn events_section(events: &Vec<RightClickEvent>) -> (text: String)
    ensures
        text@ == section_text("\nRight-Click Events:\n"@, event_lines(events@)),
{
    let ghost list = event_lines(events@);
    let mut text = String::new();
    if events.len() > 0 {
        let mut lines = String::new();
        let mut i: usize = 0;
        assert(concat_all(list.take(0)) =~= Seq::<char>::empty());
        while i < events.len()
            invariant
                i <= events.len(),
                list == event_lines(events@),
                lines@ == concat_all(list.take(i as int)),
            decreases events.len() - i,
        {
            let name = item_short_name(events[i].item.as_str());
            let line = event_line(name, events[i].actions.len());
            proof {
                lemma_concat_all_step(list, i as int);
            }
            lines.append(line.as_str());
            i += 1;
        }
        assert(list.take(events.len() as int) =~= list);
        text = String::from_str("\nRight-Click Events:\n");
        text.append(lines.as_str());
    }
    text
}

fn items_section(items: &Vec<CustomItem>) -> (text: String)
    ensures
        text@ == section_text("\nItems:\n"@, item_lines(items@)),
{
    let ghost list = item_lines(items@);
    let mut text = String::new();
    if items.len() > 0 {
        let mut lines = String::new();
        let mut i: usize = 0;
        assert(concat_all(list.take(0)) =~= Seq::<char>::empty());
        while i < items.len()
            invariant
                i <= items.len(),
                list == item_lines(items@),
                lines@ == concat_all(list.take(i as int)),
            decreases items.len() - i,
        {
            let line = name_line(items[i].name.as_str());
            proof {
                lemma_concat_all_step(list, i as int);
            }
            lines.append(line.as_str());
            i += 1;
        }
        assert(list.take(items.len() as int) =~= list);
        text = String::from_str("\nItems:\n");
        text.append(lines.as_str());
    }
    text
}

fn mobs_section(mobs: &Vec<CustomMob>) -> (text: String)
    ensures
        text@ == section_text("\nMobs:\n"@, mob_lines(mobs@)),
{
    let ghost list = mob_lines(mobs@);
    let mut text = String::new();
    if mobs.len() > 0 {
        let mut lines = String::new();
        let mut i: usize = 0;
        assert(concat_all(list.take(0)) =~= Seq::<char>::empty());
        while i < mobs.len()
            invariant
                i <= mobs.len(),
                list == mob_lines(mobs@),
                lines@ == concat_all(list.take(i as int)),
            decreases mobs.len() - i,
        {
            let line = name_line(mobs[i].name.as_str());
            proof {
                lemma_concat_all_step(list, i as int);
            }
            lines.append(line.as_str());
            i += 1;
        }
        assert(list.take(mobs.len() as int) =~= list);
        text = String::from_str("\nMobs:\n");
        text.append(lines.as_str());
    }
    text
}

/// Writes the report on a mod under the given headline.
pub fn summary(headline: &str, mod_data: &ModData) -> (text: String)
    ensures
        text@ == summary_text(headline@, *mod_data),
{
    let mut text = String::from_str(headline);
    let numbers = counts(
        mod_data.custom_items.len(),
        mod_data.custom_mobs.len(),
        mod_data.commands.len(),
        mod_data.right_click_events.len(),
    );
    let commands = commands_section(&mod_data.commands);
    let events = events_section(&mod_data.right_click_events);
    let items = items_section(&mod_data.custom_items);
    let mobs = mobs_section(&mod_data.custom_mobs);
    text.append("\n\n");
    text.append(numbers.as_str());
    text.append(commands.as_str());
    text.append(events.as_str());
    text.append(items.as_str());
    text.append(mobs.as_str());
    text
}

} // verus!
