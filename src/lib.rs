use vstd::prelude::*;

pub mod sys;
pub mod layout;
pub mod ring;
pub mod registration;
pub mod reactor;
pub mod io;

verus! {

} // verus!
