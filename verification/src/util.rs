//! Small helpers on vectors.

use vstd::prelude::*;

verus! {

/// Reverses the order of the items.
pub fn reverse<T>(items: &mut Vec<T>)
    ensures
        final(items).len() == old(items).len(),
        forall|j: int|
            0 <= j < old(items).len() ==> (#[trigger] final(items)[j]) == old(items)[old(
                items,
            ).len() - 1 - j],
{
    let ghost before = items@;
    let mut out: Vec<T> = Vec::new();
    while items.len() > 0
        invariant
            items.len() <= before.len(),
            items@ == before.take(items.len() as int),
            out.len() == before.len() - items.len(),
            forall|j: int| 0 <= j < out.len() ==> (#[trigger] out[j]) == before[before.len() - 1 - j],
        decreases items.len(),
    {
        let ghost n = items.len() as int;
        let last = items.pop().unwrap();
        assert(items@ =~= before.take(n - 1));
        out.push(last);
    }
    *items = out;
}

} // verus!
