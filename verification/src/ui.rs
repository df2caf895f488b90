//! Terminal styling constants of the runner.
use vstd::prelude::*;

verus! {

/// The accent colour of the runner's terminal styling, as a hex triplet.
pub fn magic_color() -> (r: &'static str)
    ensures
        r@ == "#8A2BE2"@,
{
    "#8A2BE2"
}

} // verus!
