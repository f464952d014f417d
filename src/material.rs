use vstd::prelude::*;

verus! {

/// A material that shows each surface by the direction of its normal.
pub struct Normals();

} // verus!
