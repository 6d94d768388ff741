//! The directory of live objects.

use vstd::prelude::*;
use crate::classes::entity::CEntity;
use crate::classes::Entity;
use crate::interface::Interface;
use crate::utils::memory::NotNull;

verus! {

/// A view of the host's directory of live objects. The directory is asked
/// anew for every lookup, and its answer is handed in as it came.
#[derive(Debug, Clone, Copy)]
pub struct IEntityList {
    base: usize,
}

impl Interface for IEntityList {
    closed spec fn address(&self) -> usize {
        self.base
    }

    fn from_raw_unchecked(ptr: usize) -> (view: Self) {
        Self { base: ptr }
    }

    fn is_null(&self) -> (null: bool) {
        self.base == 0
    }

    fn as_ptr(&self) -> (ptr: usize) {
        self.base
    }
}

impl IEntityList {
    /// The object with the index `id`, for which the directory answered
    /// `reported`: no object where the answer is the address 0, and
    /// otherwise a view of the object at the address of the answer.
    pub fn get_entity_by_id<T: Entity + Interface>(
        &self,
        id: i32,
        reported: NotNull<CEntity>,
    ) -> (view: Option<T>)
        ensures
            view is None <==> reported.address() == 0,
            view is Some ==> view->0.address() == reported.address(),
    {
        match reported.get() {
            Some(entity) => Some(T::from_raw_unchecked(entity.as_ptr())),
            None => None,
        }
    }

    /// The object with the handle `handle`, for which the directory
    /// answered `reported`: no object where the answer is the address 0,
    /// and otherwise a view of the object at the address of the answer.
    pub fn get_entity_from_handle<T: Entity + Interface>(
        &self,
        handle: i32,
        reported: NotNull<CEntity>,
    ) -> (view: Option<T>)
        ensures
            view is None <==> reported.address() == 0,
            view is Some ==> view->0.address() == reported.address(),
    {
        match reported.get() {
            Some(entity) => Some(T::from_raw_unchecked(entity.as_ptr())),
            None => None,
        }
    }
}

} // verus!
