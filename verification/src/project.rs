//! Names derived from a project: its id, and the file that a deployed mod
//! is kept in.

use vstd::prelude::*;
use vstd::string::*;
use crate::text::text_is;
use crate::unicode::{char_is_alphanumeric, is_alphanumeric, lowercase, to_lowercase};

verus! {

/// What a character of the lower-case project name contributes to the
/// project id: a space becomes an underscore, a letter, a digit or an
/// underscore stays, and anything else is dropped.
pub open spec fn project_id_char(c: char) -> Seq<char> {
    if c == ' ' {
        seq!['_']
    } else if is_alphanumeric(c) || c == '_' {
        seq![c]
    } else {
        Seq::empty()
    }
}

/// The project id of a project name that is already in lower case.
pub open spec fn project_id_from(lower: Seq<char>) -> Seq<char>
    decreases lower.len(),
{
    if lower.len() == 0 {
        Seq::empty()
    } else {
        project_id_from(lower.drop_last()) + project_id_char(lower.last())
    }
}

/// The project id of a project name: the name in lower case, with spaces as
/// underscores and without any other character that is neither a letter nor
/// a digit.
pub open spec fn project_id_text(name: Seq<char>) -> Seq<char> {
    project_id_from(lowercase(name))
}

/// Appends to `id` what one character of the lower-case project name, given
/// as the one-character text `piece`, contributes to the project id, where
/// `alphanumeric` says whether it is a letter or digit.
pub fn append_project_id_char(id: &mut String, piece: &str, alphanumeric: bool)
    requires
        piece@.len() == 1,
    ensures
        final(id)@ == old(id)@ + (if piece@[0] == ' ' {
            seq!['_']
        } else if alphanumeric || piece@[0] == '_' {
            seq![piece@[0]]
        } else {
            Seq::<char>::empty()
        }),
{
    let c = piece.get_char(0);
    proof {
        reveal_strlit("_");
        assert("_"@ =~= seq!['_']);
        assert(piece@ =~= seq![c]);
    }
    if c == ' ' {
        id.append("_");
    } else if alphanumeric || c == '_' {
        id.append(piece);
    } else {
        assert(id@ + Seq::<char>::empty() =~= id@);
    }
}

/// Derives the project id from a project name that is already in lower
/// case.
pub fn project_id_of_lower(lower: &str) -> (id: String)
    ensures
        id@ == project_id_from(lower@),
{
    let n = lower.unicode_len();
    let mut id = String::new();
    let mut i: usize = 0;
    while i < n
        invariant
            n == lower@.len(),
            i <= n,
            id@ == project_id_from(lower@.take(i as int)),
        decreases n - i,
    {
        let keep = char_is_alphanumeric(lower.get_char(i));
        proof {
            assert(lower@.take(i + 1).drop_last() =~= lower@.take(i as int));
            assert(lower@.take(i + 1).last() == lower@[i as int]);
        }
        append_project_id_char(&mut id, lower.substring_char(i, i + 1), keep);
        i += 1;
    }
    assert(lower@.take(n as int) =~= lower@);
    id
}

/// Derives the project id from a project name.
pub fn project_id(project_name: &str) -> (id: String)
    ensures
        id@ == project_id_text(project_name@),
{
    let lower = to_lowercase(project_name);
    project_id_of_lower(lower.as_str())
}

/// The name of the file that holds the deployed mod of a project.
pub open spec fn jar_name_text(project_id: Seq<char>) -> Seq<char> {
    "blockcraft-"@ + project_id + ".jar"@
}

/// Writes the name of the file that holds the deployed mod of a project.
pub fn jar_name(project_id: &str) -> (name: String)
    ensures
        name@ == jar_name_text(project_id@),
{
    let mut name = String::from_str("blockcraft-");
    name.append(project_id);
    name.append(".jar");
    name
}

/// Reads the project id out of the name of a file: `Some` exactly for the
/// names of deployed mods, `blockcraft-`, the id and `.jar`.
pub fn deployed_project_id(file_name: &str) -> (id: Option<String>)
    ensures
        match id {
            Some(project) => file_name@ == jar_name_text(project@),
            None => forall|project: Seq<char>| file_name@ != #[trigger] jar_name_text(project),
        },
{
    proof {
        reveal_strlit("blockcraft-");
        reveal_strlit(".jar");
    }
    let n = file_name.unicode_len();
    if n < 15 {
        assert forall|project: Seq<char>| file_name@ != #[trigger] jar_name_text(project) by {
            assert(jar_name_text(project).len() >= 15);
        }
        return None;
    }
    let head = file_name.substring_char(0, 11);
    let tail = file_name.substring_char(n - 4, n);
    let middle = file_name.substring_char(11, n - 4);
    if text_is(head, "blockcraft-") && text_is(tail, ".jar") {
        assert(file_name@ =~= head@ + middle@ + tail@);
        Some(String::from_str(middle))
    } else {
        assert forall|project: Seq<char>| file_name@ != #[trigger] jar_name_text(project) by {
            let name = jar_name_text(project);
            if file_name@ == name {
                assert(name.subrange(0, 11) =~= "blockcraft-"@);
                assert(name.subrange(n - 4, n as int) =~= ".jar"@);
            }
        }
        None
    }
}

/// Reading the project id out of the file name of a deployed mod gives the
/// project id back: two file names of deployed mods are equal only for equal
/// project ids.
pub proof fn lemma_jar_name_injective(a: Seq<char>, b: Seq<char>)
    requires
        jar_name_text(a) == jar_name_text(b),
    ensures
        a == b,
{
    reveal_strlit("blockcraft-");
    reveal_strlit(".jar");
    let x = jar_name_text(a);
    let y = jar_name_text(b);
    assert(x.len() == a.len() + 15);
    assert(y.len() == b.len() + 15);
    assert(x.subrange(11, 11 + a.len() as int) =~= a);
    assert(y.subrange(11, 11 + b.len() as int) =~= b);
}

} // verus!
