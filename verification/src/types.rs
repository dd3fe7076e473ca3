use vstd::prelude::*;

verus! {

/// The side a fighter looks toward along the fighting axis.
#[derive(Debug, Clone, Copy, PartialEq, Eq, Structural)]
pub enum Facing {
    Right,
    Left,
}

impl Facing {
    /// The direction as a unit step along the fighting axis.
    pub open spec fn spec_sign(self) -> int {
        match self {
            Facing::Right => 1,
            Facing::Left => -1,
        }
    }

    /// `+1` when facing right, `-1` when facing left.
    pub fn sign(self) -> (s: i32)
        ensures
            s == self.spec_sign(),
    {
        match self {
            Facing::Right => 1,
            Facing::Left => -1,
        }
    }
}

} // verus!
