//! Rays through the world of the host: where a ray hit, and which objects
//! it is allowed to hit.

use vstd::prelude::*;

verus! {

/// The part of a body that a ray hit.
#[derive(Debug, Clone, Copy, PartialEq, Eq, Structural)]
pub enum HitGroup {
    Invalid,
    Generic,
    Head,
    Chest,
    Stomach,
    LeftArm,
    RightArm,
    LeftLeg,
    RightLeg,
    Gear,
}

impl HitGroup {
    /// The number by which the host knows this part.
    pub open spec fn spec_number(&self) -> i32 {
        match self {
            HitGroup::Invalid => -1i32,
            HitGroup::Generic => 0,
            HitGroup::Head => 1,
            HitGroup::Chest => 2,
            HitGroup::Stomach => 3,
            HitGroup::LeftArm => 4,
            HitGroup::RightArm => 5,
            HitGroup::LeftLeg => 6,
            HitGroup::RightLeg => 7,
            HitGroup::Gear => 8,
        }
    }

    /// The number by which the host knows this part.
    #[verifier::when_used_as_spec(spec_number)]
    pub fn number(&self) -> (n: i32)
        ensures
            n == self.spec_number(),
    {
        match self {
            HitGroup::Invalid => -1i32,
            HitGroup::Generic => 0,
            HitGroup::Head => 1,
            HitGroup::Chest => 2,
            HitGroup::Stomach => 3,
            HitGroup::LeftArm => 4,
            HitGroup::RightArm => 5,
            HitGroup::LeftLeg => 6,
            HitGroup::RightLeg => 7,
            HitGroup::Gear => 8,
        }
    }

    /// Whether a hit of this part is told apart from a hit anywhere else:
    /// the head, the trunk, the arms and the right leg are.
    pub open spec fn is_told_apart(&self) -> bool {
        matches!(
            self,
            HitGroup::Head | HitGroup::Chest | HitGroup::Stomach | HitGroup::LeftArm
                | HitGroup::RightArm | HitGroup::RightLeg
        )
    }

    /// The part with the number `v`, if it is one that is told apart.
    pub fn try_from(v: i32) -> (part: Result<HitGroup, ()>)
        ensures
            match part {
                Ok(found) => found.spec_number() == v && found.is_told_apart(),
                Err(_) => forall|any: HitGroup| any.is_told_apart() ==> any.spec_number() != v,
            },
    {
        if v == HitGroup::Head.number() {
            Ok(HitGroup::Head)
        } else if v == HitGroup::Chest.number() {
            Ok(HitGroup::Chest)
        } else if v == HitGroup::Stomach.number() {
            Ok(HitGroup::Stomach)
        } else if v == HitGroup::LeftArm.number() {
            Ok(HitGroup::LeftArm)
        } else if v == HitGroup::RightArm.number() {
            Ok(HitGroup::RightArm)
        } else if v == HitGroup::RightLeg.number() {
            Ok(HitGroup::RightLeg)
        } else {
            Err(())
        }
    }
}

/// Whether armor covers the part with the number `hit_group`: the head
/// where a helmet is worn, and always the trunk and the arms.
pub open spec fn spec_is_armored(hit_group: int, helmet: bool) -> bool {
    if hit_group == 1 {
        helmet
    } else {
        2 <= hit_group <= 5
    }
}

/// Whether armor covers the part with the number `hit_group`.
pub fn is_armored(hit_group: i32, helmet: bool) -> (armored: bool)
    ensures
        armored == spec_is_armored(hit_group as int, helmet),
{
    match HitGroup::try_from(hit_group) {
        Ok(part) => match part {
            HitGroup::Head => helmet,
            HitGroup::Chest => true,
            HitGroup::Stomach => true,
            HitGroup::LeftArm => true,
            HitGroup::RightArm => true,
            _ => false,
        },
        Err(_) => {
            proof {
                assert(HitGroup::Head.spec_number() == 1);
                assert(HitGroup::Chest.spec_number() == 2);
                assert(HitGroup::Stomach.spec_number() == 3);
                assert(HitGroup::LeftArm.spec_number() == 4);
                assert(HitGroup::RightArm.spec_number() == 5);
            }
            false
        },
    }
}

/// An object of the host that a ray can hit, known by the first word it
/// holds.
#[derive(Debug, Clone, Copy)]
pub struct Entity {
    pub vtable: usize,
}

/// The surface that a ray hit.
#[derive(Debug, Clone, Copy)]
pub struct CSurface {
    /// The address of the name of the surface.
    pub name: usize,
    pub surface_props: i16,
    pub flags: u16,
}

/// What a ray is tested against.
#[derive(Debug, Clone, Copy, PartialEq, Eq, Structural)]
pub enum TraceType {
    EVERYTHING,
    WorldOnly,
    EntitiesOnly,
    EverythingFilterProps,
}

/// A filter that the host asks, for each object on the way of a ray,
/// whether the ray may hit it.
pub trait TraceFilterTrait: Sized {
    /// Whether a ray may hit the object at the address `entity`.
    fn should_hit_entity(&self, entity: usize, contents_mask: u32) -> bool;

    /// What the host tests a ray against under this filter.
    fn get_trace_type(&self) -> TraceType;

    /// A filter for rays that start at the object at the address `skip`.
    fn new(skip: usize) -> Self;
}

/// The filter that lets a ray hit everything but the object it starts at.
#[derive(Debug, Clone, Copy)]
pub struct TraceFilterGeneric {
    skip: usize,
}

impl TraceFilterGeneric {
    /// The address of the object that no ray hits under this filter.
    pub closed spec fn skipped(&self) -> usize {
        self.skip
    }
}

impl TraceFilterTrait for TraceFilterGeneric {
    fn should_hit_entity(&self, entity: usize, contents_mask: u32) -> (hit: bool)
        ensures
            hit == (entity != self.skipped()),
    {
        entity != self.skip
    }

    fn get_trace_type(&self) -> (tested: TraceType)
        ensures
            tested == TraceType::EVERYTHING,
    {
        TraceType::EVERYTHING
    }

    fn new(skip: usize) -> (filter: Self)
        ensures
            filter.skipped() == skip,
    {
        TraceFilterGeneric { skip }
    }
}

pub const MASK_SHOT: i32 = 0x1 | 0x4000 | 0x2000000 | 0x2 | 0x4000000 | 0x40000000;

pub const MASK_SHOT_HULL: i32 = 0x1 | 0x4000 | 0x2000000 | 0x2 | 0x4000000 | 0x8;

pub const CONTENTS_HITBOX: i32 = 0x40000000;

pub const SURF_HITBOX: u16 = 0x8000;

pub const SURF_LIGHT: u16 = 0x0001;

pub const SURF_NODRAW: u16 = 0x0080;

} // verus!
