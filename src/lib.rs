use vstd::prelude::*;

pub mod error;
pub mod remote;
pub mod session;
pub mod text;

verus! {

} // verus!
