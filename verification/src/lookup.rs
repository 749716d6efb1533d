//! Finds a block-display model by its id.

use vstd::prelude::*;
use crate::model::BlockDisplayModel;
use crate::text::text_is;

verus! {

/// The position of the first model with the id `id`, or the number of models
/// if none has it.
pub open spec fn first_match(models: Seq<BlockDisplayModel>, id: Seq<char>) -> nat
    decreases models.len(),
{
    if models.len() == 0 {
        0
    } else if models[0].id@ == id {
        0
    } else {
        1 + first_match(models.drop_first(), id)
    }
}

/// The first model with the id `id`, if there is one.
pub open spec fn find_model(models: Seq<BlockDisplayModel>, id: Seq<char>) -> Option<BlockDisplayModel> {
    let i = first_match(models, id);
    if i < models.len() {
        Some(models[i as int])
    } else {
        None
    }
}

/// A position before which no model has the id, and which is the end of the
/// list or holds a model with the id, is the position of the first match.
pub proof fn lemma_first_match(models: Seq<BlockDisplayModel>, id: Seq<char>, i: nat)
    requires
        i <= models.len(),
        forall|j: int| 0 <= j < i ==> models[j].id@ != id,
        i < models.len() ==> models[i as int].id@ == id,
    ensures
        first_match(models, id) == i,
    decreases models.len(),
{
    if models.len() > 0 && i > 0 {
        let rest = models.drop_first();
        assert(forall|j: int| 0 <= j < i - 1 ==> rest[j] == models[j + 1]);
        lemma_first_match(rest, id, (i - 1) as nat);
    }
}

/// No model has the id exactly when the search finds none.
pub proof fn lemma_find_model_none(models: Seq<BlockDisplayModel>, id: Seq<char>)
    ensures
        find_model(models, id) is None <==> forall|j: int| 0 <= j < models.len() ==> models[j].id@ != id,
    decreases models.len(),
{
    if models.len() > 0 {
        let rest = models.drop_first();
        lemma_find_model_none(rest, id);
        if models[0].id@ != id {
            if find_model(models, id) is None {
                assert forall|j: int| 0 <= j < models.len() implies models[j].id@ != id by {
                    if j > 0 {
                        assert(rest[j - 1] == models[j]);
                    }
                }
            } else {
                let w = choose|j: int| 0 <= j < rest.len() && rest[j].id@ == id;
                assert(models[w + 1] == rest[w]);
            }
        }
    }
}

/// The position of the first match lies in the list or at its end; a model
/// at that position has the id, and no model before it has.
pub proof fn lemma_first_match_is_first(models: Seq<BlockDisplayModel>, id: Seq<char>)
    ensures
        first_match(models, id) <= models.len(),
        first_match(models, id) < models.len() ==> models[first_match(models, id) as int].id@ == id,
        forall|j: int| 0 <= j < first_match(models, id) ==> models[j].id@ != id,
    decreases models.len(),
{
    if models.len() > 0 && models[0].id@ != id {
        let rest = models.drop_first();
        lemma_first_match_is_first(rest, id);
        assert forall|j: int| 0 <= j < first_match(models, id) implies models[j].id@ != id by {
            if j > 0 {
                assert(rest[j - 1] == models[j]);
            }
        }
    }
}

/// Looks for the position of the first model with the id `id`.
pub fn lookup_index(models: &Vec<BlockDisplayModel>, id: &str) -> (found: Option<usize>)
    ensures
        match found {
            Some(i) => i < models@.len() && first_match(models@, id@) == i,
            None => first_match(models@, id@) == models@.len(),
        },
{
    let mut i: usize = 0;
    while i < models.len()
        invariant
            i <= models.len(),
            forall|j: int| 0 <= j < i ==> models@[j].id@ != id@,
        decreases models.len() - i,
    {
        if text_is(models[i].id.as_str(), id) {
            proof {
                lemma_first_match(models@, id@, i as nat);
            }
            return Some(i);
        }
        i += 1;
    }
    proof {
        lemma_first_match(models@, id@, i as nat);
    }
    None
}

/// Looks for the first model with the id `id`.
pub fn lookup_model<'a>(models: &'a Vec<BlockDisplayModel>, id: &str) -> (found: Option<&'a BlockDisplayModel>)
    ensures
        match found {
            Some(model) => find_model(models@, id@) == Some(*model),
            None => find_model(models@, id@) is None,
        },
{
    match lookup_index(models, id) {
        Some(i) => Some(&models[i]),
        None => None,
    }
}

} // verus!
