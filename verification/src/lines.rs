//! Counting the lines of generated text.

use vstd::prelude::*;
use vstd::string::*;
use crate::emit::{action_text, body_text};
use crate::model::{children, Action, BlockDisplayModel};
use crate::templates::{block_footer_text, repeat_header_text};
use crate::text::{decimal, digit_char, digits, indent_text, indent_unit};

verus! {

/// The number of line breaks in a text.
pub open spec fn line_breaks(s: Seq<char>) -> nat
    decreases s.len(),
{
    if s.len() == 0 {
        0
    } else {
        line_breaks(s.drop_last()) + if s.last() == '\n' {
            1nat
        } else {
            0nat
        }
    }
}

/// The number of lines of a text: one more than it has line breaks.
pub open spec fn line_count(s: Seq<char>) -> nat {
    line_breaks(s) + 1
}

/// The line breaks of two texts add up when the texts are joined.
pub proof fn lemma_line_breaks_concat(a: Seq<char>, b: Seq<char>)
    ensures
        line_breaks(a + b) == line_breaks(a) + line_breaks(b),
    decreases b.len(),
{
    if b.len() == 0 {
        assert(a + b =~= a);
    } else {
        lemma_line_breaks_concat(a, b.drop_last());
        assert((a + b).drop_last() =~= a + b.drop_last());
    }
}

/// A text without the line-break character has no line breaks.
pub proof fn lemma_no_line_breaks(s: Seq<char>)
    requires
        forall|i: int| 0 <= i < s.len() ==> s[i] != '\n',
    ensures
        line_breaks(s) == 0,
    decreases s.len(),
{
    if s.len() > 0 {
        lemma_no_line_breaks(s.drop_last());
    }
}

/// Indentation holds no line break.
pub proof fn lemma_indent_one_line(level: nat)
    ensures
        line_breaks(indent_text(level)) == 0,
    decreases level,
{
    if level > 0 {
        lemma_indent_one_line((level - 1) as nat);
        reveal_strlit("    ");
        lemma_no_line_breaks(indent_unit());
        lemma_line_breaks_concat(indent_text((level - 1) as nat), indent_unit());
    }
}

/// The digits of a number hold no line break.
pub proof fn lemma_digits_one_line(n: nat)
    ensures
        line_breaks(digits(n)) == 0,
    decreases n,
{
    if n < 10 {
        lemma_no_line_breaks(digits(n));
    } else {
        lemma_digits_one_line(n / 10);
        let last = seq![digit_char((n % 10) as int)];
        lemma_no_line_breaks(last);
        assert(digits(n) =~= digits(n / 10) + last);
        lemma_line_breaks_concat(digits(n / 10), last);
    }
}

/// The decimal text of an integer holds no line break.
pub proof fn lemma_decimal_one_line(n: int)
    ensures
        line_breaks(decimal(n)) == 0,
{
    if n < 0 {
        lemma_digits_one_line((-n) as nat);
        lemma_no_line_breaks(seq!['-']);
        lemma_line_breaks_concat(seq!['-'], digits((-n) as nat));
    } else {
        lemma_digits_one_line(n as nat);
    }
}

/// The lines of the first `upto` actions nested under `parent`, added up.
pub open spec fn body_line_count(
    parent: Action,
    upto: nat,
    level: nat,
    models: Seq<BlockDisplayModel>,
    k: nat,
) -> nat
    decreases upto,
{
    if upto == 0 || upto > children(parent).len() {
        0
    } else {
        body_line_count(parent, (upto - 1) as nat, level, models, k) + line_count(
            action_text(children(parent)[upto - 1], level, models, k),
        )
    }
}

/// The body of a block has one line break per line of its actions.
pub proof fn lemma_body_line_breaks(
    parent: Action,
    upto: nat,
    level: nat,
    models: Seq<BlockDisplayModel>,
    k: nat,
)
    ensures
        line_breaks(body_text(parent, upto, level, models, k)) == body_line_count(
            parent,
            upto,
            level,
            models,
            k,
        ),
    decreases upto,
{
    if upto == 0 || upto > children(parent).len() {
    } else {
        let before = body_text(parent, (upto - 1) as nat, level, models, k);
        let one = action_text(children(parent)[upto - 1], level, models, k);
        lemma_body_line_breaks(parent, (upto - 1) as nat, level, models, k);
        reveal_strlit("\n");
        assert(line_breaks("\n"@) == 1) by {
            assert("\n"@.drop_last() =~= Seq::<char>::empty());
            assert(line_breaks("\n"@.drop_last()) == 0);
        }
        lemma_line_breaks_concat(before, one);
        lemma_line_breaks_concat(before + one, "\n"@);
    }
}

/// The first line of a counting loop ends in the only line break it holds.
pub proof fn lemma_repeat_header_one_break(level: nat, times: int)
    ensures
        line_breaks(repeat_header_text(indent_text(level), times)) == 1,
{
    let pad = indent_text(level);
    let head = "for (int i = 0; i < "@;
    let tail = "; i++) {\n"@;
    reveal_strlit("for (int i = 0; i < ");
    reveal_strlit("; i++) {\n");
    lemma_indent_one_line(level);
    lemma_decimal_one_line(times);
    lemma_no_line_breaks(head);
    lemma_no_line_breaks(tail.drop_last());
    lemma_line_breaks_concat(pad, head);
    lemma_line_breaks_concat(pad + head, decimal(times));
    lemma_line_breaks_concat(pad + head + decimal(times), tail);
}

/// The closing line of a block holds no line break.
pub proof fn lemma_block_footer_no_break(level: nat)
    ensures
        line_breaks(block_footer_text(indent_text(level))) == 0,
{
    reveal_strlit("}");
    lemma_indent_one_line(level);
    lemma_no_line_breaks("}"@);
    lemma_line_breaks_concat(indent_text(level), "}"@);
}

/// A counting loop has two lines of its own, the first and the closing one,
/// and besides them the lines of the actions in its body.
pub proof fn lemma_repeat_line_count(action: Action, level: nat, models: Seq<BlockDisplayModel>, k: nat)
    requires
        action is Repeat,
    ensures
        line_count(action_text(action, level, models, k)) == 2 + body_line_count(
            action,
            children(action).len(),
            level + 1,
            models,
            k,
        ),
{
    let pad = indent_text(level);
    let times = action->times;
    let header = repeat_header_text(pad, times as int);
    let body = body_text(action, children(action).len(), level + 1, models, k);
    let footer = block_footer_text(pad);
    lemma_repeat_header_one_break(level, times as int);
    lemma_block_footer_no_break(level);
    lemma_body_line_breaks(action, children(action).len(), level + 1, models, k);
    lemma_line_breaks_concat(header, body);
    lemma_line_breaks_concat(header + body, footer);
    assert(action_text(action, level, models, k) == header + body + footer);
}

} // verus!
