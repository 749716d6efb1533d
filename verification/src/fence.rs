//! Cuts program code out of an answer that may wrap it in a Markdown code
//! fence.

use vstd::prelude::*;
use vstd::string::*;

verus! {

/// Whether `needle` stands in `hay` at position `i`.
pub open spec fn occurs_at(hay: Seq<char>, needle: Seq<char>, i: int) -> bool {
    0 <= i && i + needle.len() <= hay.len() && hay.subrange(i, i + needle.len()) == needle
}

/// The first position at or after `from` where `needle` stands in `hay`, or
/// -1 if there is none.
pub open spec fn first_from(hay: Seq<char>, needle: Seq<char>, from: int) -> int
    decreases hay.len() + 1 - from,
{
    if from < 0 || from + needle.len() > hay.len() {
        -1
    } else if occurs_at(hay, needle, from) {
        from
    } else {
        first_from(hay, needle, from + 1)
    }
}

/// The first position where `needle` stands in `hay`, or -1.
pub open spec fn first_occurrence(hay: Seq<char>, needle: Seq<char>) -> int {
    first_from(hay, needle, 0)
}

/// The mark that opens and closes a code fence.
pub open spec fn fence() -> Seq<char> {
    "```"@
}

/// The mark that opens a fence of Python code.
pub open spec fn python_fence() -> Seq<char> {
    "```python"@
}

/// The text up to the first occurrence of `mark`, or all of it if it holds
/// none.
pub open spec fn until_mark(rest: Seq<char>, mark: Seq<char>) -> Seq<char> {
    let end = first_occurrence(rest, mark);
    if end >= 0 {
        rest.take(end)
    } else {
        rest
    }
}

/// The code in an answer. With a Python fence: what follows the first one,
/// up to the next Python fence if there is one, and of that the part before
/// the first fence mark. Without a Python fence: what stands between the
/// first two fence marks. Without any fence mark: the whole answer. A fence
/// that is never closed reaches to the end.
pub open spec fn fenced_code(answer: Seq<char>) -> Seq<char> {
    let python = first_occurrence(answer, python_fence());
    let plain = first_occurrence(answer, fence());
    if python >= 0 {
        until_mark(until_mark(answer.skip(python + python_fence().len()), python_fence()), fence())
    } else if plain >= 0 {
        until_mark(answer.skip(plain + fence().len()), fence())
    } else {
        answer
    }
}

/// The first occurrence is an occurrence, and there is none before it; where
/// there is no first occurrence, there is none at all.
pub proof fn lemma_first_from(hay: Seq<char>, needle: Seq<char>, from: int)
    requires
        0 <= from,
    ensures
        first_from(hay, needle, from) >= 0 ==> from <= first_from(hay, needle, from) && occurs_at(
            hay,
            needle,
            first_from(hay, needle, from),
        ),
        first_from(hay, needle, from) == -1 || first_from(hay, needle, from) >= 0,
        forall|j: int|
            from <= j && (first_from(hay, needle, from) < 0 || j < first_from(hay, needle, from))
                ==> !occurs_at(hay, needle, j),
    decreases hay.len() + 1 - from,
{
    if from + needle.len() > hay.len() {
    } else if occurs_at(hay, needle, from) {
    } else {
        lemma_first_from(hay, needle, from + 1);
    }
}

fn matches_at(hay: &str, needle: &str, i: usize, m: usize) -> (found: bool)
    requires
        m == needle@.len(),
        i + m <= hay@.len(),
        i + m <= usize::MAX,
    ensures
        found == occurs_at(hay@, needle@, i as int),
{
    let mut k: usize = 0;
    while k < m
        invariant
            k <= m,
            m == needle@.len(),
            i + m <= hay@.len(),
            i + m <= usize::MAX,
            forall|j: int| 0 <= j < k ==> hay@[i + j] == needle@[j],
        decreases m - k,
    {
        if hay.get_char(i + k) != needle.get_char(k) {
            assert(hay@.subrange(i as int, i + m)[k as int] == hay@[i + k]);
            return false;
        }
        k += 1;
    }
    assert(hay@.subrange(i as int, i + m) =~= needle@);
    true
}

/// Looks for the first place where `needle` stands in `hay`.
pub fn find_first(hay: &str, needle: &str) -> (at: Option<usize>)
    ensures
        match at {
            Some(i) => first_occurrence(hay@, needle@) == i,
            None => first_occurrence(hay@, needle@) == -1,
        },
{
    let n = hay.unicode_len();
    let m = needle.unicode_len();
    if m > n {
        return None;
    }
    let last = n - m;
    let mut i: usize = 0;
    while i <= last
        invariant
            n == hay@.len(),
            m == needle@.len(),
            m <= n,
            last == n - m,
            i <= last + 1,
            first_occurrence(hay@, needle@) == first_from(hay@, needle@, i as int),
        decreases last + 1 - i,
    {
        if matches_at(hay, needle, i, m) {
            return Some(i);
        }
        if i == last {
            assert(first_from(hay@, needle@, i + 1) == -1);
            return None;
        }
        i += 1;
    }
    None
}

/// Cuts off `rest` at the first occurrence of `mark`.
pub fn cut_at<'a>(rest: &'a str, mark: &str) -> (code: &'a str)
    ensures
        code@ == until_mark(rest@, mark@),
{
    match find_first(rest, mark) {
        Some(end) => {
            proof {
                lemma_first_from(rest@, mark@, 0);
            }
            rest.substring_char(0, end)
        },
        None => rest,
    }
}

/// Cuts the code out of an answer.
pub fn extract_code(answer: &str) -> (code: &str)
    ensures
        code@ == fenced_code(answer@),
{
    proof {
        reveal_strlit("```python");
        reveal_strlit("```");
        lemma_first_from(answer@, python_fence(), 0);
        lemma_first_from(answer@, fence(), 0);
    }
    let n = answer.unicode_len();
    match find_first(answer, "```python") {
        Some(at) => cut_at(cut_at(answer.substring_char(at + 9, n), "```python"), "```"),
        None => match find_first(answer, "```") {
            Some(at) => cut_at(answer.substring_char(at + 3, n), "```"),
            None => answer,
        },
    }
}

} // verus!
