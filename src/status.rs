use vstd::prelude::*;

verus! {

/// The verdict that a reply carries about a case.
///
/// Each variant has a fixed integer on the wire; new variants may only be
/// appended with new integers.
#[derive(Clone, Copy, Debug, PartialEq, Eq, Structural)]
pub enum Status {
    /// The case is valid (the wire table's "Ok").
    Valid,
    InvalidInput,
    PointAtInfinity,
    ZeroScalar,
    InvalidPubkey,
    TweakOutOfRange,
    Internal,
}

/// The wire integer of each status.
pub open spec fn status_code_spec(s: Status) -> u8 {
    match s {
        Status::Valid => 0,
        Status::InvalidInput => 1,
        Status::PointAtInfinity => 2,
        Status::ZeroScalar => 3,
        Status::InvalidPubkey => 4,
        Status::TweakOutOfRange => 5,
        Status::Internal => 255,
    }
}

impl Status {
    /// The status's integer in the reply's status byte.
    pub fn code(self) -> (r: u8)
        ensures
            r == status_code_spec(self),
    {
        match self {
            Status::Valid => 0,
            Status::InvalidInput => 1,
            Status::PointAtInfinity => 2,
            Status::ZeroScalar => 3,
            Status::InvalidPubkey => 4,
            Status::TweakOutOfRange => 5,
            Status::Internal => 255,
        }
    }
}

} // verus!
