//! Music-theory encoding primitives: scale interval patterns and scale-degree
//! alterations, packed into small integers and decoded by pure arithmetic.

use vstd::prelude::*;

pub mod degreeplus;
pub mod prelude;
pub mod scale_pattern;

verus! {

/// Version of the library.
pub const VERSION: &'static str = "0.1.0";

/// Initialize the library. There is nothing to set up, so this always succeeds.
pub fn init() -> (r: Result<(), ()>)
    ensures
        r is Ok,
{
    Ok(())
}

} // verus!
