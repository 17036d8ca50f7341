use vstd::prelude::*;

verus! {

/// The BabyBear prime `15 * 2^27 + 1`, the field that trace cells live in.
pub const BABYBEAR_P: u32 = 2013265921;

} // verus!
