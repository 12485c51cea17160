//! TARS's movement commands: what each asks the servos to do, the words it
//! is announced with, and the status the controller keeps. Driving the
//! servos and waiting are the application's part.

use crate::robotics::servo_config::{frame_targets, servo_channel, is_pose, neutral_targets, step_forward_prep_targets, turn_left_targets, turn_right_targets, MovementPose, ServoId, TARSPoses};
use crate::text::{join2, join3, lowercase, str_equal, strings_view, svec4, to_lower};
use vstd::prelude::*;

verus! {

broadcast use vstd::string::group_string_axioms;

/// A movement command.
#[derive(Debug, Clone)]
pub enum MovementCommand {
    StepForward,
    TurnLeft,
    TurnRight,
    Pose(String),
    Neutral,
    EmergencyStop,
}

/// What the controller last did. Servo targets are in hundredths of full
/// travel.
#[derive(Debug, Clone)]
pub struct MovementStatus {
    pub current_pose: String,
    pub is_moving: bool,
    pub last_command: Option<MovementCommand>,
    pub servo_positions: Vec<(ServoId, i16)>,
}

/// The words a command is announced with, before the personality colours
/// them.
pub open spec fn command_announcement(c: MovementCommand) -> Seq<char> {
    match c {
        MovementCommand::StepForward => "Stepping forward, Cooper."@,
        MovementCommand::TurnLeft => "Turning left, as requested."@,
        MovementCommand::TurnRight => "Turning right. I hope you know where we're going."@,
        MovementCommand::Pose(name) => "Executing "@ + name@ + " pose. This better be important."@,
        MovementCommand::Neutral => "Returning to neutral position. Finally, some stability."@,
        MovementCommand::EmergencyStop => "Emergency stop engaged. I hope that wasn't too dramatic."@,
    }
}

/// The pose a name selects, compared lower-cased: neutral, step (or
/// step_forward), left (or turn_left), right (or turn_right).
pub open spec fn named_pose(lowered: Seq<char>) -> Option<(Seq<char>, Seq<i16>, u64)> {
    if lowered == "neutral"@ {
        Some(("Neutral"@, neutral_targets(), 1000u64))
    } else if lowered == "step_forward"@ || lowered == "step"@ {
        Some(("Step Forward Prep"@, step_forward_prep_targets(), 800u64))
    } else if lowered == "turn_left"@ || lowered == "left"@ {
        Some(("Turn Left"@, turn_left_targets(), 600u64))
    } else if lowered == "turn_right"@ || lowered == "right"@ {
        Some(("Turn Right"@, turn_right_targets(), 600u64))
    } else {
        None
    }
}

/// The three servo moves of a forward step after the preparation pose:
/// lift the right leg, swing it forward, plant it.
pub open spec fn step_phases() -> Seq<(Seq<(ServoId, i16)>, u64)> {
    seq![
        (seq![(ServoId::RightHipUpDown, 40i16), (ServoId::RightKnee, 60i16), (ServoId::LeftHipUpDown, -20i16)], 400u64),
        (seq![
            (ServoId::RightHipForwardBack, 30i16),
            (ServoId::RightShoulderForwardBack, -20i16),
            (ServoId::LeftShoulderForwardBack, 20i16),
        ], 500u64),
        (seq![(ServoId::RightHipUpDown, 0i16), (ServoId::RightKnee, 0i16), (ServoId::LeftHipUpDown, 0i16)], 400u64),
    ]
}

/// The words a command is announced with.
pub fn command_announcement_text(c: &MovementCommand) -> (r: String)
    ensures
        r@ == command_announcement(*c),
{
    match c {
        MovementCommand::StepForward => String::from_str("Stepping forward, Cooper."),
        MovementCommand::TurnLeft => String::from_str("Turning left, as requested."),
        MovementCommand::TurnRight => String::from_str("Turning right. I hope you know where we're going."),
        MovementCommand::Pose(name) => join3("Executing ", name.as_str(), " pose. This better be important."),
        MovementCommand::Neutral => String::from_str("Returning to neutral position. Finally, some stability."),
        MovementCommand::EmergencyStop => String::from_str("Emergency stop engaged. I hope that wasn't too dramatic."),
    }
}

/// Movement is refused while disabled.
pub fn check_enabled(enabled: bool) -> (r: Result<(), String>)
    ensures
        r is Ok <==> enabled,
        r matches Err(m) ==> m@ == "Movement is disabled. Safety protocols active."@,
{
    if !enabled {
        return Err(String::from_str("Movement is disabled. Safety protocols active."));
    }
    Ok(())
}

/// Calibration is refused while movement is disabled.
pub fn check_calibration_allowed(enabled: bool) -> (r: Result<(), String>)
    ensures
        r is Ok <==> enabled,
        r matches Err(m) ==> m@ == "Cannot calibrate - movement disabled"@,
{
    if !enabled {
        return Err(String::from_str("Cannot calibrate - movement disabled"));
    }
    Ok(())
}

/// The words a finished calibration is announced with.
pub fn calibration_announcement() -> (r: String)
    ensures
        r@ == "Servo calibration complete. All systems nominal. I'm ready to move, assuming you have somewhere worthwhile to go."@,
{
    String::from_str(
        "Servo calibration complete. All systems nominal. I'm ready to move, assuming you have somewhere worthwhile to go.",
    )
}

/// The pose a name selects; an unknown name is refused with "Unknown pose:
/// <name>".
pub fn pose_by_name(pose_name: &str) -> (r: Result<MovementPose, String>)
    ensures
        match named_pose(lowercase(pose_name@)) {
            Some((name, targets, duration)) => r matches Ok(p) && is_pose(p, name, targets, duration),
            None => r matches Err(m) && m@ == "Unknown pose: "@ + pose_name@,
        },
{
    let l = to_lower(pose_name);
    let s = l.as_str();
    if str_equal(s, "neutral") {
        Ok(TARSPoses::neutral())
    } else if str_equal(s, "step_forward") || str_equal(s, "step") {
        Ok(TARSPoses::step_forward_prep())
    } else if str_equal(s, "turn_left") || str_equal(s, "left") {
        Ok(TARSPoses::turn_left())
    } else if str_equal(s, "turn_right") || str_equal(s, "right") {
        Ok(TARSPoses::turn_right())
    } else {
        Err(join2("Unknown pose: ", pose_name))
    }
}

/// The servo moves of a forward step after the preparation pose, each with
/// the time it takes at normal speed.
pub fn step_forward_phases() -> (r: Vec<(Vec<(ServoId, i16)>, u64)>)
    ensures
        r@.len() == 3,
        forall|i: int| 0 <= i < 3 ==> (#[trigger] r@[i]).0@ == step_phases()[i].0 && r@[i].1 == step_phases()[i].1,
{
    let mut a: Vec<(ServoId, i16)> = Vec::new();
    a.push((ServoId::RightHipUpDown, 40));
    a.push((ServoId::RightKnee, 60));
    a.push((ServoId::LeftHipUpDown, -20));
    let mut b: Vec<(ServoId, i16)> = Vec::new();
    b.push((ServoId::RightHipForwardBack, 30));
    b.push((ServoId::RightShoulderForwardBack, -20));
    b.push((ServoId::LeftShoulderForwardBack, 20));
    let mut c: Vec<(ServoId, i16)> = Vec::new();
    c.push((ServoId::RightHipUpDown, 0));
    c.push((ServoId::RightKnee, 0));
    c.push((ServoId::LeftHipUpDown, 0));
    assert(a@ =~= step_phases()[0].0);
    assert(b@ =~= step_phases()[1].0);
    assert(c@ =~= step_phases()[2].0);
    let mut r: Vec<(Vec<(ServoId, i16)>, u64)> = Vec::new();
    r.push((a, 400));
    r.push((b, 500));
    r.push((c, 400));
    r
}

/// The names of the poses on offer.
pub fn get_available_poses() -> (r: Vec<String>)
    ensures
        strings_view(r@) == seq!["Neutral"@, "Step Forward"@, "Turn Left"@, "Turn Right"@],
{
    svec4("Neutral", "Step Forward", "Turn Left", "Turn Right")
}

/// An element-wise copy of a list of servo targets.
fn copy_targets(v: &Vec<(ServoId, i16)>) -> (r: Vec<(ServoId, i16)>)
    ensures
        r@ == v@,
{
    let mut r: Vec<(ServoId, i16)> = Vec::new();
    let mut i: usize = 0;
    while i < v.len()
        invariant
            i <= v.len(),
            r@ == v@.subrange(0, i as int),
        decreases v.len() - i,
    {
        r.push(v[i]);
        i = i + 1;
    }
    r
}

impl MovementStatus {
    /// Standing still in the neutral pose, no command yet.
    pub fn new() -> (s: Self)
        ensures
            s.current_pose@ == "Neutral"@,
            !s.is_moving,
            s.last_command is None,
            s.servo_positions@.len() == 0,
    {
        MovementStatus {
            current_pose: String::from_str("Neutral"),
            is_moving: false,
            last_command: None,
            servo_positions: Vec::new(),
        }
    }

    /// Records a start or an end of motion; the pose name is kept only
    /// when motion ends.
    pub fn set_moving(&mut self, is_moving: bool, pose: &str)
        ensures
            final(self).is_moving == is_moving,
            final(self).current_pose@ == (if is_moving { old(self).current_pose@ } else { pose@ }),
            final(self).last_command == old(self).last_command,
            final(self).servo_positions@ == old(self).servo_positions@,
    {
        self.is_moving = is_moving;
        if !is_moving {
            self.current_pose = String::from_str(pose);
        }
    }

    /// Records a pose reached: its name and servo targets.
    pub fn record_pose(&mut self, pose: &MovementPose)
        ensures
            final(self).current_pose@ == pose.name@,
            final(self).servo_positions@ == pose.positions@,
            final(self).is_moving == old(self).is_moving,
            final(self).last_command == old(self).last_command,
    {
        self.current_pose = pose.name.clone();
        self.servo_positions = copy_targets(&pose.positions);
    }

    /// Records a command carried out: it is the last command and motion has
    /// stopped.
    pub fn record_command(&mut self, command: MovementCommand)
        ensures
            final(self).last_command == Some(command),
            !final(self).is_moving,
            final(self).current_pose == old(self).current_pose,
            final(self).servo_positions@ == old(self).servo_positions@,
    {
        self.last_command = Some(command);
        self.is_moving = false;
    }
}

/// A forward step never drives a hip backward: in every phase, every hip
/// forward/back target is at or ahead of centre. In the swing phase the
/// right leg swings forward, to the stride the left leg took in the
/// preparation pose, while the arms swing against it (right arm back, left
/// arm forward).
pub proof fn law_forward_step_swings_forward()
    ensures
        forall|i: int, j: int|
            0 <= i < step_phases().len() && 0 <= j < step_phases()[i].0.len()
                && (step_phases()[i].0[j].0 == ServoId::RightHipForwardBack
                || step_phases()[i].0[j].0 == ServoId::LeftHipForwardBack) ==> #[trigger] step_phases()[i].0[j].1 >= 0,
        exists|j: int|
            0 <= j < step_phases()[1].0.len() && #[trigger] step_phases()[1].0[j].0 == ServoId::RightHipForwardBack && {
                let v = step_phases()[1].0[j].1;
                &&& v > 0
                &&& v == step_forward_prep_targets()[servo_channel(ServoId::LeftHipForwardBack) as int]
            },
        forall|j: int|
            0 <= j < step_phases()[1].0.len() && step_phases()[1].0[j].0 == ServoId::RightShoulderForwardBack
                ==> #[trigger] step_phases()[1].0[j].1 < 0,
        forall|j: int|
            0 <= j < step_phases()[1].0.len() && step_phases()[1].0[j].0 == ServoId::LeftShoulderForwardBack
                ==> #[trigger] step_phases()[1].0[j].1 > 0,
{
    let p = step_phases();
    assert forall|i: int, j: int|
        0 <= i < p.len() && 0 <= j < p[i].0.len()
            && (p[i].0[j].0 == ServoId::RightHipForwardBack || p[i].0[j].0 == ServoId::LeftHipForwardBack) implies
        #[trigger] p[i].0[j].1 >= 0 by {
        if i == 0 {
            assert(p[0].0[0].0 == ServoId::RightHipUpDown);
        }
    }
    assert(p[1].0[0].0 == ServoId::RightHipForwardBack);
    assert(step_forward_prep_targets()[3] == 30i16);
}

} // verus!
