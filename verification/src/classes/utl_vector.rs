//! The growable array of the host.

use vstd::prelude::*;

verus! {

/// The elements of an array of the host, with the count that the host
/// keeps beside them.
pub struct CUtlVec<T> {
    elements: Vec<T>,
}

impl<T> View for CUtlVec<T> {
    type V = Seq<T>;

    closed spec fn view(&self) -> Seq<T> {
        self.elements@
    }
}

impl<T> CUtlVec<T> {
    #[verifier::type_invariant]
    spec fn counted(&self) -> bool {
        self.elements@.len() <= i32::MAX
    }

    /// The array that holds `elements`. The host counts with 32 bits.
    pub fn new(elements: Vec<T>) -> (array: Self)
        requires
            elements@.len() <= i32::MAX,
        ensures
            array@ == elements@,
    {
        CUtlVec { elements }
    }

    /// The element at `index`, if the array has one there. A negative index
    /// names no element.
    pub fn get(&self, index: i32) -> (element: Option<&T>)
        ensures
            element is Some <==> 0 <= index < self@.len(),
            element is Some ==> *element->0 == self@[index as int],
    {
        if index < 0 || index as usize >= self.elements.len() {
            None
        } else {
            Some(&self.elements[index as usize])
        }
    }

    /// How many elements the array holds.
    pub fn size(&self) -> (size: i32)
        ensures
            size == self@.len(),
    {
        proof {
            use_type_invariant(self);
        }
        self.elements.len() as i32
    }
}

} // verus!
