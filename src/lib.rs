use vstd::prelude::*;

pub mod channel;
pub mod driver;
pub mod grid;
pub mod input;
pub mod laws;
pub mod pump;

verus! {

} // verus!
