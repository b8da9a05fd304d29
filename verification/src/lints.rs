//! Selection of the lint-control attributes of the annotated type: the
//! generated implementation block reproduces them, so that lint expectations
//! set on the type also govern the generated code.

use vstd::prelude::*;
use crate::strutil::str_eq;

verus! {

/// Whether an attribute name is one of the lint controls.
pub open spec fn is_lint_name(s: Seq<char>) -> bool {
    s == "allow"@ || s == "warn"@ || s == "deny"@ || s == "forbid"@
}

/// The positions of the lint-control attributes among the first `n`
/// attribute names, in order.
pub open spec fn lint_indices_upto(paths: Seq<Seq<char>>, n: int) -> Seq<usize>
    decreases n,
{
    if n <= 0 {
        Seq::empty()
    } else {
        let p = lint_indices_upto(paths, n - 1);
        if is_lint_name(paths[n - 1]) {
            p.push((n - 1) as usize)
        } else {
            p
        }
    }
}

/// Select, in order, the positions of the attributes that are lint
/// controls, given the attributes' names.
pub fn collect_lint_indices(paths: &Vec<String>) -> (r: Vec<usize>)
    ensures
        r@ == lint_indices_upto(paths.deep_view(), paths@.len() as int),
{
    let ghost pv = paths.deep_view();
    let n = paths.len();
    let mut out: Vec<usize> = Vec::new();
    let mut i: usize = 0;
    while i < n
        invariant
            n == paths@.len(),
            pv == paths.deep_view(),
            i <= n,
            out@ == lint_indices_upto(pv, i as int),
        decreases n - i,
    {
        proof {
            assert(pv.len() == paths@.len());
            assert(pv[i as int] == paths@[i as int].deep_view());
        }
        let p = &paths[i];
        if str_eq(p.as_str(), "allow") || str_eq(p.as_str(), "warn") || str_eq(p.as_str(), "deny")
            || str_eq(p.as_str(), "forbid") {
            out.push(i);
            proof {
                assert(out@ =~= lint_indices_upto(pv, i as int + 1));
            }
        } else {
            proof {
                assert(out@ =~= lint_indices_upto(pv, i as int + 1));
            }
        }
        i += 1;
    }
    out
}

} // verus!
