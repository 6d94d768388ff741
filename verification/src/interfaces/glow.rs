//! The slots in which the host keeps the outlines that it draws around
//! objects, and the list of the slots that are free.

use vstd::prelude::*;
use crate::classes::entity::CEntity;
use crate::interface::Interface;

verus! {

/// The mark that `next_free_slot` bears in a slot once an object has taken
/// it.
pub const TAKEN_MARK: i32 = -2;

/// What `first_free_slot` holds when no slot is free.
pub const END_OF_FREE_LIST: i32 = -1;

/// An object of the host that has an outline, known by the first word it
/// holds.
#[derive(Debug, Clone, Copy)]
pub struct Entity {
    pub vtable: usize,
}

/// One slot. The colours of the outline are fractions and are not kept here.
#[derive(Debug, Clone, Copy, PartialEq, Eq, Structural)]
pub struct GlowObjectDef {
    /// The next slot of the free list, for a slot that is free.
    pub next_free_slot: i32,
    /// The address of the object that has taken the slot; 0 for none.
    pub entity: usize,
    pub render_when_occluded: bool,
    pub render_when_unoccluded: bool,
    pub full_bloom_render: bool,
    pub full_bloom_stencil_test: i32,
    pub glow_style: i32,
    pub split_screen_slot: i32,
}

impl GlowObjectDef {
    /// Whether the slot bears [`TAKEN_MARK`]. A slot that was taken bears it,
    /// so this holds of the slots that are taken, and of no slot of the
    /// free list.
    pub open spec fn spec_is_unused(&self) -> bool {
        self.next_free_slot == TAKEN_MARK
    }

    /// Whether the slot bears [`TAKEN_MARK`].
    #[verifier::when_used_as_spec(spec_is_unused)]
    pub fn is_unused(&self) -> (unused: bool)
        ensures
            unused == self.spec_is_unused(),
    {
        self.next_free_slot == TAKEN_MARK
    }

    /// The slot after the object at `entity` has taken it.
    pub open spec fn taken_by(self, entity: usize) -> GlowObjectDef {
        GlowObjectDef {
            next_free_slot: TAKEN_MARK,
            entity,
            full_bloom_render: false,
            full_bloom_stencil_test: 0,
            split_screen_slot: -1i32,
            ..self
        }
    }

    /// The slot after it was given back, with `next` as the slot that
    /// follows it in the free list.
    pub open spec fn given_back(self, next: i32) -> GlowObjectDef {
        GlowObjectDef {
            next_free_slot: next,
            entity: 0,
            render_when_occluded: false,
            render_when_unoccluded: false,
            ..self
        }
    }
}

/// The slots of the host, and the head of the list of free slots.
#[derive(Debug)]
pub struct IGlowObjectManager {
    /// The slots, in the order of the host's array.
    pub glow_objects: Vec<GlowObjectDef>,
    /// The first slot of the free list.
    pub first_free_slot: i32,
}

impl IGlowObjectManager {
    /// Whether `index` names a slot.
    pub open spec fn has_slot(&self, index: int) -> bool {
        0 <= index < self.glow_objects@.len()
    }

    /// Whether a slot that does not bear [`TAKEN_MARK`] names the object at
    /// `entity`.
    pub open spec fn spec_has_glow_effect(&self, entity: usize) -> bool {
        exists|i: int|
            0 <= i < self.glow_objects@.len() && i <= i32::MAX && !(
            #[trigger] self.glow_objects@[i]).spec_is_unused() && self.glow_objects@[i].entity
                == entity
    }

    /// Whether a slot that does not bear [`TAKEN_MARK`] names `entity`. The
    /// host counts its slots with 32 bits, and slots beyond that count are
    /// not looked at.
    pub fn has_glow_effect(&self, entity: &CEntity) -> (found: bool)
        ensures
            found == self.spec_has_glow_effect(entity.address()),
    {
        let address = entity.as_ptr();
        let mut i: usize = 0;
        while i < self.glow_objects.len() && i <= 0x7FFF_FFFF
            invariant
                forall|j: int|
                    0 <= j < i && j < self.glow_objects@.len() ==> !(!(
                    #[trigger] self.glow_objects@[j]).spec_is_unused()
                        && self.glow_objects@[j].entity == address),
                address == entity.address(),
            decreases self.glow_objects@.len() - i,
        {
            let slot = &self.glow_objects[i];
            if !slot.is_unused() && slot.entity == address {
                return true;
            }
            i += 1;
        }
        false
    }

    /// Takes the first free slot for `entity` and gives back its index. The
    /// head of the free list moves on to the slot that followed. Where the
    /// head names no slot, nothing changes, and the head is given back as
    /// it is.
    pub fn register_glow_effect(&mut self, entity: &CEntity) -> (index: i32)
        ensures
            index == old(self).first_free_slot,
            old(self).has_slot(index as int) ==> {
                &&& final(self).first_free_slot == old(self).glow_objects@[index as int].next_free_slot
                &&& final(self).glow_objects@ == old(self).glow_objects@.update(
                    index as int,
                    old(self).glow_objects@[index as int].taken_by(entity.address()),
                )
            },
            !old(self).has_slot(index as int) ==> *final(self) == *old(self),
    {
        let index = self.first_free_slot;
        if index >= 0 && (index as usize) < self.glow_objects.len() {
            let at = index as usize;
            let slot = self.glow_objects[at];
            self.first_free_slot = slot.next_free_slot;
            self.glow_objects.set(
                at,
                GlowObjectDef {
                    next_free_slot: TAKEN_MARK,
                    entity: entity.as_ptr(),
                    full_bloom_render: false,
                    full_bloom_stencil_test: 0,
                    split_screen_slot: -1,
                    ..slot
                },
            );
        }
        index
    }

    /// Gives the slot `index` back: it becomes the head of the free list,
    /// and the old head follows it. Where `index` names no slot, nothing
    /// changes.
    pub fn unregister_glow_effect(&mut self, index: i32)
        ensures
            old(self).has_slot(index as int) ==> {
                &&& final(self).first_free_slot == index
                &&& final(self).glow_objects@ == old(self).glow_objects@.update(
                    index as int,
                    old(self).glow_objects@[index as int].given_back(old(self).first_free_slot),
                )
            },
            !old(self).has_slot(index as int) ==> *final(self) == *old(self),
    {
        if index >= 0 && (index as usize) < self.glow_objects.len() {
            let at = index as usize;
            let slot = self.glow_objects[at];
            self.glow_objects.set(
                at,
                GlowObjectDef {
                    next_free_slot: self.first_free_slot,
                    entity: 0,
                    render_when_occluded: false,
                    render_when_unoccluded: false,
                    ..slot
                },
            );
            self.first_free_slot = index;
        }
    }
}

} // verus!
