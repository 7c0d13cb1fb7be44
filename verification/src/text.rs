//! Small string helpers shared by the parsing modules.

use vstd::prelude::*;

verus! {

/// String slice equality, decided through owned-string comparison.
pub fn str_eq(a: &str, b: &str) -> (r: bool)
    ensures
        r == (a@ == b@),
{
    let ao: String = a.to_owned();
    let bo: String = b.to_owned();
    ao == bo
}

} // verus!
