//! Views of the objects of the host.

use vstd::prelude::*;

pub mod entity;
pub mod utl_vector;
pub mod weapon;

verus! {

/// The mark of a view that the directory of live objects can hand out.
pub trait Entity {

}

} // verus!
