//! Verified equality helpers over strings.
//!
//! `vstd` specifies equality for `String` but not for `&str`, so the
//! comparisons the engine needs are routed through owned strings here.

use vstd::prelude::*;

verus! {

/// Whether two string slices hold the same characters.
pub fn str_eq(a: &str, b: &str) -> (r: bool)
    ensures
        r == (a@ == b@),
{
    let oa = a.to_owned();
    let ob = b.to_owned();
    oa == ob
}

/// Whether a string holds the same characters as a slice.
pub fn string_eq_str(a: &String, b: &str) -> (r: bool)
    ensures
        r == (a@ == b@),
{
    let ob = b.to_owned();
    *a == ob
}

} // verus!
