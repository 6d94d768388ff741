//! The bones of a player model.

use vstd::prelude::*;

verus! {

/// A bone of a player model.
#[derive(Debug, Clone, Copy, PartialEq, Eq, Structural)]
pub enum Bones {
    Head,
    Neck,
    Spine0,
    Spine1,
    Spine2,
    Spine3,
    LegUpperL,
    LegLowerL,
    LegUpperR,
    LegLowerR,
    FootL,
    FootR,
}

impl Bones {
    /// The number of the bone in the host's array of bone transforms.
    pub open spec fn spec_index(&self) -> i32 {
        match self {
            Bones::Head => 8,
            Bones::Neck => 7,
            Bones::Spine0 => 3,
            Bones::Spine1 => 4,
            Bones::Spine2 => 5,
            Bones::Spine3 => 6,
            Bones::LegUpperL => 65,
            Bones::LegLowerL => 66,
            Bones::LegUpperR => 72,
            Bones::LegLowerR => 73,
            Bones::FootL => 69,
            Bones::FootR => 76,
        }
    }

    /// The number of the bone in the host's array of bone transforms.
    #[verifier::when_used_as_spec(spec_index)]
    pub fn index(&self) -> (index: i32)
        ensures
            index == self.spec_index(),
    {
        match self {
            Bones::Head => 8,
            Bones::Neck => 7,
            Bones::Spine0 => 3,
            Bones::Spine1 => 4,
            Bones::Spine2 => 5,
            Bones::Spine3 => 6,
            Bones::LegUpperL => 65,
            Bones::LegLowerL => 66,
            Bones::LegUpperR => 72,
            Bones::LegLowerR => 73,
            Bones::FootL => 69,
            Bones::FootR => 76,
        }
    }
}

/// The bones in the order in which they are tried: from the head down.
pub open spec fn bone_order() -> Seq<Bones> {
    seq![
        Bones::Head,
        Bones::Neck,
        Bones::Spine0,
        Bones::Spine1,
        Bones::Spine2,
        Bones::Spine3,
        Bones::LegUpperL,
        Bones::LegLowerL,
        Bones::LegUpperR,
        Bones::LegLowerR,
        Bones::FootL,
        Bones::FootR,
    ]
}

/// The numbers of the bones, in the order in which the bones are tried.
pub fn get_bone_list() -> (list: [i32; 12])
    ensures
        list@ == bone_order().map_values(|bone: Bones| bone.spec_index()),
{
    let list = [
        Bones::Head.index(),
        Bones::Neck.index(),
        Bones::Spine0.index(),
        Bones::Spine1.index(),
        Bones::Spine2.index(),
        Bones::Spine3.index(),
        Bones::LegUpperL.index(),
        Bones::LegLowerL.index(),
        Bones::LegUpperR.index(),
        Bones::LegLowerR.index(),
        Bones::FootL.index(),
        Bones::FootR.index(),
    ];
    assert(list@ =~= bone_order().map_values(|bone: Bones| bone.spec_index()));
    list
}

} // verus!
