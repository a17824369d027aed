use vstd::prelude::*;

pub mod contacts_probe;
pub mod decimal;
pub mod envelope;
pub mod error;
pub mod order;
pub mod packager;
pub mod timing;
pub mod upload;

verus! {

} // verus!
