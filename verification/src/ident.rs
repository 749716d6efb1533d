//! Turns an arbitrary identifier into a fragment of a Java method name.

use vstd::prelude::*;
use vstd::string::*;
use crate::unicode::{char_is_alphanumeric, is_alphanumeric};

verus! {

/// A letter or digit stays; any other character becomes an underscore.
pub open spec fn sanitized_char(c: char) -> char {
    if is_alphanumeric(c) {
        c
    } else {
        '_'
    }
}

/// The sanitized form of an identifier: character by character, in order.
pub open spec fn sanitized(id: Seq<char>) -> Seq<char> {
    Seq::new(id.len(), |i: int| sanitized_char(id[i]))
}

/// Sanitizing keeps the length, so only the empty identifier gives an empty
/// symbol, and it keeps every letter and digit in its place.
pub proof fn lemma_sanitized_shape(id: Seq<char>)
    ensures
        sanitized(id).len() == id.len(),
        id.len() > 0 ==> sanitized(id).len() > 0,
        forall|i: int| 0 <= i < id.len() && is_alphanumeric(id[i]) ==> sanitized(id)[i] == id[i],
        forall|i: int| 0 <= i < id.len() && !is_alphanumeric(id[i]) ==> sanitized(id)[i] == '_',
{
}

/// Two identifiers that differ only in characters that are neither letters
/// nor digits get the same symbol: sanitizing is not injective.
pub proof fn lemma_sanitized_collision(a: Seq<char>, b: Seq<char>)
    requires
        a.len() == b.len(),
        forall|i: int| 0 <= i < a.len() ==> a[i] == b[i] || (!is_alphanumeric(a[i]) && !is_alphanumeric(b[i])),
    ensures
        sanitized(a) == sanitized(b),
{
    assert(sanitized(a) =~= sanitized(b));
}

/// Appends to `symbol` what sanitizing makes of one character, given as the
/// one-character text `piece`, where `alphanumeric` says whether it is a
/// letter or digit.
pub fn append_symbol_char(symbol: &mut String, piece: &str, alphanumeric: bool)
    requires
        piece@.len() == 1,
    ensures
        final(symbol)@ == old(symbol)@.push(
            if alphanumeric {
                piece@[0]
            } else {
                '_'
            },
        ),
{
    proof {
        reveal_strlit("_");
        assert("_"@ =~= seq!['_']);
        assert(piece@ =~= seq![piece@[0]]);
    }
    if alphanumeric {
        symbol.append(piece);
        assert(symbol@ =~= old(symbol)@.push(piece@[0]));
    } else {
        symbol.append("_");
        assert(symbol@ =~= old(symbol)@.push('_'));
    }
}

/// Maps every character of `id` that is not a letter or digit to `_`.
pub fn sanitize_id(id: &str) -> (symbol: String)
    ensures
        symbol@ == sanitized(id@),
        symbol@.len() == id@.len(),
{
    let n = id.unicode_len();
    let mut symbol = String::new();
    let mut i: usize = 0;
    while i < n
        invariant
            n == id@.len(),
            i <= n,
            symbol@ == sanitized(id@.take(i as int)),
        decreases n - i,
    {
        let c = id.get_char(i);
        let keep = char_is_alphanumeric(c);
        assert(sanitized(id@.take(i + 1)) =~= sanitized(id@.take(i as int)).push(sanitized_char(c)));
        append_symbol_char(&mut symbol, id.substring_char(i, i + 1), keep);
        i += 1;
    }
    assert(id@.take(n as int) =~= id@);
    symbol
}

} // verus!
