//! Small verified helpers over vectors of strings.

use vstd::prelude::*;

verus! {

/// A copy of a vector of strings, element by element.
pub fn clone_strings(v: &Vec<String>) -> (r: Vec<String>)
    ensures
        r.deep_view() == v.deep_view(),
{
    let mut r: Vec<String> = Vec::new();
    let mut k: usize = 0;
    while k < v.len()
        invariant
            k <= v.len(),
            r.deep_view() =~= v.deep_view().subrange(0, k as int),
        decreases v.len() - k,
    {
        let ghost before = r.deep_view();
        let elem: String = v[k].clone();
        proof {
            assert(elem@ == v.deep_view()[k as int]);
        }
        r.push(elem);
        proof {
            assert(r.deep_view() =~= before.push(v.deep_view()[k as int]));
            assert(before.push(v.deep_view()[k as int]) =~= v.deep_view().subrange(
                0,
                k as int + 1,
            ));
        }
        k = k + 1;
    }
    proof {
        assert(v.deep_view().subrange(0, v@.len() as int) =~= v.deep_view());
    }
    r
}

/// Whether `x` occurs among the strings of `v`.
pub fn contains_string(v: &Vec<String>, x: &String) -> (r: bool)
    ensures
        r == v.deep_view().contains(x@),
{
    let mut k: usize = 0;
    while k < v.len()
        invariant
            0 <= k <= v.len(),
            forall|j: int| 0 <= j < k ==> v.deep_view()[j] != x@,
        decreases v.len() - k,
    {
        if v[k] == *x {
            proof {
                assert(v.deep_view()[k as int] == x@);
            }
            return true;
        }
        k = k + 1;
    }
    false
}

} // verus!
