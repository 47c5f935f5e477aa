//! Three-way comparison of dotted version strings.

use std::cmp::Ordering;

use vstd::prelude::*;

use crate::version::{compare_segments, parse_version_segments, version_order};

verus! {

/// Compares two dotted version strings like `1.0.0` by their numeric segments;
/// `Greater` when `a` is higher. Missing trailing segments count as `0`, and
/// non-numeric suffixes of a segment are ignored.
pub fn cmp_version(a: &str, b: &str) -> (r: Ordering)
    ensures
        match r {
            Ordering::Less => version_order(a@, b@) == -1,
            Ordering::Equal => version_order(a@, b@) == 0,
            Ordering::Greater => version_order(a@, b@) == 1,
        },
{
    let sa = parse_version_segments(a);
    let sb = parse_version_segments(b);
    let c = compare_segments(&sa, &sb);
    proof {
        crate::version::version_order_antisymmetric(a@, b@);
    }
    if c < 0 {
        Ordering::Less
    } else if c > 0 {
        Ordering::Greater
    } else {
        Ordering::Equal
    }
}

} // verus!
