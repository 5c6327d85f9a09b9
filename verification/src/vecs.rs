//! Helpers on vectors.

use vstd::prelude::*;

verus! {

/// The elements of `items` in reverse order.
pub fn reversed<T>(items: Vec<T>) -> (back: Vec<T>)
    ensures
        back@ == items@.reverse(),
{
    let ghost all = items@;
    let mut rest = items;
    let mut back: Vec<T> = Vec::new();
    while rest.len() > 0
        invariant
            rest@ + back@.reverse() == all,
        decreases rest.len(),
    {
        let item = rest.pop().unwrap();
        back.push(item);
    }
    back
}

} // verus!
