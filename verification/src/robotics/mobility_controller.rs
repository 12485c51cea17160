//! The robot's mobility modes and which motions each allows.

use vstd::prelude::*;

verus! {

broadcast use vstd::string::group_string_axioms;

/// How the robot moves: on wheels or on legs.
#[derive(Debug, Clone, Copy, PartialEq, Eq, Structural)]
pub enum MobilityMode {
    Wheeled,
    Walking,
}

/// Whether driving and rotating are allowed in a mode.
pub open spec fn drive_allowed(mode: MobilityMode) -> bool {
    mode == MobilityMode::Wheeled
}

/// Whether setting leg joints is allowed in a mode.
pub open spec fn joints_allowed(mode: MobilityMode) -> bool {
    mode == MobilityMode::Walking
}

/// Driving and rotating need wheeled mode; anything else is refused with
/// "Not in wheeled mode".
pub fn ensure_wheeled(mode: MobilityMode) -> (r: Result<(), String>)
    ensures
        r is Ok <==> drive_allowed(mode),
        r matches Err(m) ==> m@ == "Not in wheeled mode"@,
{
    if mode != MobilityMode::Wheeled {
        return Err(String::from_str("Not in wheeled mode"));
    }
    Ok(())
}

/// Setting joints needs walking mode; anything else is refused with "Not in
/// walking mode".
pub fn ensure_walking(mode: MobilityMode) -> (r: Result<(), String>)
    ensures
        r is Ok <==> joints_allowed(mode),
        r matches Err(m) ==> m@ == "Not in walking mode"@,
{
    if mode != MobilityMode::Walking {
        return Err(String::from_str("Not in walking mode"));
    }
    Ok(())
}

/// The two modes exclude each other: in any mode exactly one of driving and
/// setting joints is allowed.
pub proof fn law_modes_exclusive(mode: MobilityMode)
    ensures
        drive_allowed(mode) != joints_allowed(mode),
{
}

} // verus!
