use vstd::prelude::*;

pub mod easing;
pub mod session;
pub mod transition;

verus! {

} // verus!
