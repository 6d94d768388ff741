//! What every view of a host object has in common, and the host's registry
//! of named interfaces.

use vstd::prelude::*;
use vstd::string::*;
use crate::utils::error::{Error, ErrorKind};
use crate::utils::string::same_text;

verus! {

/// A view of an object of the host: nothing but the address of the object.
/// A view owns nothing, and the address 0 stands for no object.
pub trait Interface: Sized {
    /// The address that the view holds.
    spec fn address(&self) -> usize;

    /// A view of the object at `ptr`, which may be 0.
    fn from_raw_unchecked(ptr: usize) -> (view: Self)
        ensures
            view.address() == ptr,
    ;

    /// Whether the view holds the address 0: whether it views no object.
    fn is_null(&self) -> (null: bool)
        ensures
            null == (self.address() == 0),
    ;

    /// The address that the view holds.
    fn as_ptr(&self) -> (ptr: usize)
        ensures
            ptr == self.address(),
    ;
}

/// One entry of the host's registry of interfaces: a name with its version,
/// and the address of the instance.
pub struct InterfaceEntry {
    /// The name of the interface, with its version.
    pub name: String,
    /// The address of the instance that the entry's factory hands out.
    pub instance: usize,
}

/// The view of the interface named `name`: the instance of the first entry
/// of `registry`, taken in the host's order, that has this name. Where no
/// entry has it, the lookup fails with [`Error::NotFound`], which carries
/// the name.
pub fn get_interface<T: Interface>(registry: &Vec<InterfaceEntry>, name: &str) -> (found: Result<
    T,
    Error,
>)
    ensures
        found is Ok <==> exists|i: int|
            0 <= i < registry@.len() && (#[trigger] registry@[i]).name@ == name@,
        found is Ok ==> exists|i: int|
            {
                &&& 0 <= i < registry@.len()
                &&& (#[trigger] registry@[i]).name@ == name@
                &&& forall|j: int| 0 <= j < i ==> (#[trigger] registry@[j]).name@ != name@
                &&& found->Ok_0.address() == registry@[i].instance
            },
        found is Err ==> found->Err_0.spec_kind() == ErrorKind::NotFound && found->Err_0.text()
            == name@,
{
    let mut i: usize = 0;
    while i < registry.len()
        invariant
            i <= registry@.len(),
            forall|j: int| 0 <= j < i ==> (#[trigger] registry@[j]).name@ != name@,
        decreases registry@.len() - i,
    {
        if same_text(registry[i].name.as_str(), name) {
            return Ok(T::from_raw_unchecked(registry[i].instance));
        }
        i += 1;
    }
    Err(Error::not_found(name))
}

} // verus!
