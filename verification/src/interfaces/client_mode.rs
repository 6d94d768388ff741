//! The commands of the user.

use vstd::prelude::*;

verus! {

/// A button of a command of the user.
#[derive(Debug, Clone, Copy, PartialEq, Eq, Structural)]
pub enum EButtons {
    InAttack,
    InJump,
    InDuck,
    InForward,
    InBack,
    InUse,
    InMoveleft,
    InMoveright,
    InAttack2,
    InScore,
    InBullrush,
}

impl EButtons {
    /// The bit that stands for this button in the buttons of a command.
    pub open spec fn spec_number(&self) -> i32 {
        match self {
            EButtons::InAttack => 0x1i32,
            EButtons::InJump => 0x2,
            EButtons::InDuck => 0x4,
            EButtons::InForward => 0x8,
            EButtons::InBack => 0x10,
            EButtons::InUse => 0x20,
            EButtons::InMoveleft => 0x200,
            EButtons::InMoveright => 0x400,
            EButtons::InAttack2 => 0x800,
            EButtons::InScore => 0x10000,
            EButtons::InBullrush => 0x400000,
        }
    }

    /// The bit that stands for this button in the buttons of a command.
    #[verifier::when_used_as_spec(spec_number)]
    pub fn number(&self) -> (n: i32)
        ensures
            n == self.spec_number(),
    {
        match self {
            EButtons::InAttack => 0x1,
            EButtons::InJump => 0x2,
            EButtons::InDuck => 0x4,
            EButtons::InForward => 0x8,
            EButtons::InBack => 0x10,
            EButtons::InUse => 0x20,
            EButtons::InMoveleft => 0x200,
            EButtons::InMoveright => 0x400,
            EButtons::InAttack2 => 0x800,
            EButtons::InScore => 0x10000,
            EButtons::InBullrush => 0x400000,
        }
    }
}

} // verus!
