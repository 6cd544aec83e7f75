//! Joining lists of names.

use vstd::prelude::*;

verus! {

/// The names of `a` followed by those of `b`.
pub fn concat(a: &Vec<&'static str>, b: &Vec<&'static str>) -> (r: Vec<&'static str>)
    ensures
        r.deep_view() == a.deep_view() + b.deep_view(),
{
    let mut out: Vec<&'static str> = Vec::new();
    let mut i: usize = 0;
    while i < a.len()
        invariant
            i <= a.len(),
            out.len() == i,
            forall|j: int| 0 <= j < i ==> out[j]@ == a[j]@,
        decreases a.len() - i,
    {
        out.push(a[i]);
        i = i + 1;
    }
    let mut k: usize = 0;
    while k < b.len()
        invariant
            k <= b.len(),
            out.len() == a.len() + k,
            forall|j: int| 0 <= j < a.len() ==> out[j]@ == a[j]@,
            forall|j: int| 0 <= j < k ==> out[a.len() + j]@ == b[j]@,
        decreases b.len() - k,
    {
        out.push(b[k]);
        k = k + 1;
    }
    assert(out.deep_view() =~= a.deep_view() + b.deep_view());
    out
}

} // verus!
