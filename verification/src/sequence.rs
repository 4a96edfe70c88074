//! Reversal of vectors, and the facts about reversed sequences that the
//! flattener's proofs lean on.

use vstd::prelude::*;

verus! {

/// The items of `items` from the last to the first.
pub fn reversed<T>(items: Vec<T>) -> (result: Vec<T>)
    ensures
        result@ == items@.reverse(),
{
    let ghost given = items@;
    let mut rest = items;
    let mut result: Vec<T> = Vec::new();
    while rest.len() > 0
        invariant
            rest.len() <= given.len(),
            rest@ == given.subrange(0, rest.len() as int),
            result.len() == given.len() - rest.len(),
            forall|k: int|
                0 <= k < result.len() ==> result[k] == given[given.len() - 1 - k],
        decreases rest.len(),
    {
        let item = rest.pop().unwrap();
        result.push(item);
    }
    result
}

/// Reversal turns a concatenation round: the second part comes first.
pub proof fn lemma_reverse_concat<T>(front: Seq<T>, back: Seq<T>)
    ensures
        (front + back).reverse() == back.reverse() + front.reverse(),
{
}

/// Reversing twice gives the sequence back.
pub proof fn lemma_reverse_twice<T>(items: Seq<T>)
    ensures
        items.reverse().reverse() == items,
{
}

} // verus!
