//! Text building blocks: indentation, decimal numbers, quote escaping and
//! line counting.

use vstd::prelude::*;
use vstd::string::*;

verus! {

/// The text of one indentation unit.
pub open spec fn indent_unit() -> Seq<char> {
    "    "@
}

/// The leading whitespace of a statement at nesting level `level`.
pub open spec fn indent_text(level: nat) -> Seq<char>
    decreases level,
{
    if level == 0 {
        Seq::empty()
    } else {
        indent_text((level - 1) as nat) + indent_unit()
    }
}

/// Builds the leading whitespace for nesting level `level`.
pub fn indent_string(level: usize) -> (pad: String)
    ensures
        pad@ == indent_text(level as nat),
{
    let mut pad = String::new();
    let mut i: usize = 0;
    while i < level
        invariant
            i <= level,
            pad@ == indent_text(i as nat),
        decreases level - i,
    {
        pad.append("    ");
        i += 1;
    }
    pad
}

/// Whether two texts hold the same characters.
pub fn text_is(s: &str, other: &str) -> (same: bool)
    ensures
        same == (s@ == other@),
{
    let a = String::from_str(s);
    let b = String::from_str(other);
    a == b
}

/// The character that writes the decimal digit `d`.
pub open spec fn digit_char(d: int) -> char {
    if d == 0 {
        '0'
    } else if d == 1 {
        '1'
    } else if d == 2 {
        '2'
    } else if d == 3 {
        '3'
    } else if d == 4 {
        '4'
    } else if d == 5 {
        '5'
    } else if d == 6 {
        '6'
    } else if d == 7 {
        '7'
    } else if d == 8 {
        '8'
    } else {
        '9'
    }
}

/// The decimal digits of a natural number, most significant first, without
/// leading zeros.
pub open spec fn digits(n: nat) -> Seq<char>
    decreases n,
{
    if n < 10 {
        seq![digit_char(n as int)]
    } else {
        digits(n / 10).push(digit_char((n % 10) as int))
    }
}

/// The decimal text of an integer: a minus sign for a negative number, then
/// its digits.
pub open spec fn decimal(n: int) -> Seq<char> {
    if n < 0 {
        seq!['-'] + digits((-n) as nat)
    } else {
        digits(n as nat)
    }
}

fn digit_str(d: u64) -> (s: &'static str)
    requires
        d < 10,
    ensures
        s@ == seq![digit_char(d as int)],
{
    proof {
        reveal_strlit("0");
        reveal_strlit("1");
        reveal_strlit("2");
        reveal_strlit("3");
        reveal_strlit("4");
        reveal_strlit("5");
        reveal_strlit("6");
        reveal_strlit("7");
        reveal_strlit("8");
        reveal_strlit("9");
    }
    let s = if d == 0 {
        "0"
    } else if d == 1 {
        "1"
    } else if d == 2 {
        "2"
    } else if d == 3 {
        "3"
    } else if d == 4 {
        "4"
    } else if d == 5 {
        "5"
    } else if d == 6 {
        "6"
    } else if d == 7 {
        "7"
    } else if d == 8 {
        "8"
    } else {
        "9"
    };
    assert(s@ =~= seq![digit_char(d as int)]);
    s
}

/// Appends the decimal digits of `n` to `out`.
pub fn append_digits(out: &mut String, n: u64)
    ensures
        final(out)@ == old(out)@ + digits(n as nat),
    decreases n,
{
    if n >= 10 {
        append_digits(out, n / 10);
    }
    out.append(digit_str(n % 10));
    assert(out@ =~= old(out)@ + digits(n as nat));
}

/// Appends the decimal text of `n` to `out`.
pub fn append_decimal(out: &mut String, n: i32)
    ensures
        final(out)@ == old(out)@ + decimal(n as int),
{
    let wide: i64 = n as i64;
    if wide < 0 {
        out.append("-");
        proof {
            reveal_strlit("-");
        }
        append_digits(out, (0 - wide) as u64);
        assert(out@ =~= old(out)@ + decimal(n as int));
    } else {
        append_digits(out, wide as u64);
    }
}

/// Appends the decimal text of a count to `out`.
pub fn append_count(out: &mut String, n: usize)
    ensures
        final(out)@ == old(out)@ + decimal(n as int),
{
    append_digits(out, n as u64);
}

/// The decimal text of `n` as a string of its own.
pub fn decimal_string(n: i32) -> (text: String)
    ensures
        text@ == decimal(n as int),
{
    let mut text = String::new();
    append_decimal(&mut text, n);
    assert(text@ =~= decimal(n as int));
    text
}

/// What escaping does to one character: a double quote gets a backslash in
/// front of it, every other character stays as it is.
pub open spec fn escaped_char(c: char) -> Seq<char> {
    if c == '"' {
        seq!['\\', '"']
    } else {
        seq![c]
    }
}

/// A text with a backslash put before each of its double quotes, so that no
/// double quote of it ends a Java string literal that it is written into.
/// Nothing else is changed: a backslash or a line break stays as it is.
pub open spec fn escaped(s: Seq<char>) -> Seq<char>
    decreases s.len(),
{
    if s.len() == 0 {
        Seq::empty()
    } else {
        escaped_char(s[0]) + escaped(s.drop_first())
    }
}

/// The inverse of escaping: a backslash that stands directly before a double
/// quote is dropped, everything else is kept.
pub open spec fn unescaped(t: Seq<char>) -> Seq<char>
    decreases t.len(),
{
    if t.len() == 0 {
        Seq::empty()
    } else if t.len() >= 2 && t[0] == '\\' && t[1] == '"' {
        seq!['"'] + unescaped(t.skip(2))
    } else {
        seq![t[0]] + unescaped(t.skip(1))
    }
}

/// Escaping distributes over concatenation.
pub proof fn lemma_escaped_concat(a: Seq<char>, b: Seq<char>)
    ensures
        escaped(a + b) == escaped(a) + escaped(b),
    decreases a.len(),
{
    if a.len() == 0 {
        assert(a + b =~= b);
        assert(escaped(a) + escaped(b) =~= escaped(b));
    } else {
        lemma_escaped_concat(a.drop_first(), b);
        assert((a + b).drop_first() =~= a.drop_first() + b);
        assert(escaped(a + b) =~= escaped(a) + escaped(b));
    }
}

/// An escaped text never starts with a bare double quote.
pub proof fn lemma_escaped_head(s: Seq<char>)
    requires
        s.len() > 0,
    ensures
        escaped(s).len() > 0,
        escaped(s)[0] != '"',
{
}

/// Unescaping an escaped text gives the text back.
pub proof fn lemma_escape_round_trip(s: Seq<char>)
    ensures
        unescaped(escaped(s)) == s,
    decreases s.len(),
{
    if s.len() > 0 {
        let rest = s.drop_first();
        let tail = escaped(rest);
        let whole = escaped(s);
        lemma_escape_round_trip(rest);
        if rest.len() > 0 {
            lemma_escaped_head(rest);
        }
        if s[0] == '"' {
            assert(whole.skip(2) =~= tail);
            assert(seq!['"'] + rest =~= s);
        } else {
            assert(whole.skip(1) =~= tail);
            assert(seq![s[0]] + rest =~= s);
        }
    }
}

/// Puts a backslash before every double quote of `s`.
pub fn escape_text(s: &str) -> (out: String)
    ensures
        out@ == escaped(s@),
{
    let n = s.unicode_len();
    let mut out = String::new();
    let mut i: usize = 0;
    while i < n
        invariant
            n == s@.len(),
            i <= n,
            out@ == escaped(s@.take(i as int)),
        decreases n - i,
    {
        let c = s.get_char(i);
        proof {
            let one = seq![c];
            assert(s@.take(i + 1) =~= s@.take(i as int) + one);
            lemma_escaped_concat(s@.take(i as int), one);
            assert(one.drop_first() =~= Seq::<char>::empty());
            assert(escaped(one.drop_first()) =~= Seq::<char>::empty());
            assert(escaped(one) =~= escaped_char(c));
            assert(s@.subrange(i as int, i + 1) =~= one);
            reveal_strlit("\\\"");
            assert("\\\""@ =~= seq!['\\', '"']);
        }
        if c == '"' {
            out.append("\\\"");
        } else {
            out.append(s.substring_char(i, i + 1));
        }
        i += 1;
    }
    assert(s@.take(n as int) =~= s@);
    out
}

/// Undoes `escape_text`.
pub fn unescape_text(t: &str) -> (out: String)
    ensures
        out@ == unescaped(t@),
{
    let n = t.unicode_len();
    let mut out = String::new();
    let mut i: usize = 0;
    assert(t@.skip(0) =~= t@);
    assert(out@ + unescaped(t@) =~= unescaped(t@));
    while i < n
        invariant
            n == t@.len(),
            i <= n,
            out@ + unescaped(t@.skip(i as int)) == unescaped(t@),
        decreases n - i,
    {
        let ghost before = out@;
        let ghost rest = t@.skip(i as int);
        let c = t.get_char(i);
        let pair = c == '\\' && i + 1 < n && t.get_char(i + 1) == '"';
        proof {
            reveal_strlit("\"");
            assert("\""@ =~= seq!['"']);
            assert(rest[0] == c);
            assert(rest.skip(1) =~= t@.skip(i + 1));
            assert(t@.subrange(i as int, i + 1) =~= seq![c]);
            if i + 1 < n {
                assert(rest[1] == t@[i + 1]);
                assert(rest.skip(2) =~= t@.skip(i + 2));
            }
        }
        if pair {
            out.append("\"");
            i += 2;
            assert(out@ + unescaped(t@.skip(i as int)) =~= before + unescaped(rest));
        } else {
            out.append(t.substring_char(i, i + 1));
            i += 1;
            assert(out@ + unescaped(t@.skip(i as int)) =~= before + unescaped(rest));
        }
    }
    assert(out@ + unescaped(t@.skip(n as int)) =~= out@);
    out
}

} // verus!
