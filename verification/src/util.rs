//! Small executable helpers over strings shared by the handlers.

use vstd::prelude::*;

verus! {

/// True when `chaines` holds a string whose characters are `cible`.
pub open spec fn spec_contient_chaine(chaines: Seq<String>, cible: Seq<char>) -> bool {
    exists|i: int| 0 <= i < chaines.len() && chaines[i]@ == cible
}

/// Whether `chaines` holds a string equal to `cible`.
pub fn contient_chaine(chaines: &Vec<String>, cible: &String) -> (r: bool)
    ensures
        r == spec_contient_chaine(chaines@, cible@),
{
    let mut i: usize = 0;
    while i < chaines.len()
        invariant
            i <= chaines@.len(),
            forall|j: int| 0 <= j < i ==> chaines@[j]@ != cible@,
        decreases chaines@.len() - i,
    {
        if chaines[i].eq(cible) {
            return true;
        }
        i = i + 1;
    }
    false
}

} // verus!
