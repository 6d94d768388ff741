//! The host's registry of network classes.

use vstd::prelude::*;
use crate::definitions::recv_props::CRecvTable;

verus! {

/// One exported network class. The host keeps its classes in a list; a
/// vector of these holds them in the order of that list.
pub struct ClientClass {
    /// The name under which the class is exported.
    pub network_name: String,
    /// The root field table of the class.
    pub recv_table: CRecvTable,
    /// The number of the class.
    pub class_id: i32,
}

} // verus!
