//! Gamepad control of TARS: which button asks for what, the pad's state,
//! and the pacing and safety decisions of the control loops. Reading the
//! pad is the application's part.

use crate::robotics::tars_movement::MovementCommand;
use vstd::prelude::*;

verus! {

/// What a button asks TARS to do.
#[derive(Debug, Clone, Copy, PartialEq, Eq, Structural)]
pub enum TARSButton {
    StepForward,
    TurnLeft,
    TurnRight,
    EmergencyStop,
    NeutralPose,
    Calibrate,
    EnableMovement,
    SpeedUp,
    SpeedDown,
}

/// The buttons of a standard pad, as the gamepad library names them; the
/// others are `Other`.
#[derive(Debug, Clone, Copy, PartialEq, Eq, Structural)]
pub enum PadButton {
    South,
    East,
    North,
    West,
    LeftTrigger,
    RightTrigger,
    Select,
    Start,
    DPadUp,
    DPadDown,
    DPadLeft,
    DPadRight,
    Other,
}

/// What the pad controller keeps between events. The speed is in tenths,
/// from 1 to 20.
#[derive(Debug, Clone, Copy, PartialEq, Eq, Structural)]
pub struct PadState {
    pub connected: bool,
    pub movement_enabled: bool,
    pub speed_tenths: u8,
}

/// The command of each button.
pub open spec fn button_command(b: PadButton) -> Option<TARSButton> {
    match b {
        PadButton::South => Some(TARSButton::StepForward),
        PadButton::East => Some(TARSButton::EmergencyStop),
        PadButton::North => Some(TARSButton::NeutralPose),
        PadButton::West => Some(TARSButton::Calibrate),
        PadButton::LeftTrigger => Some(TARSButton::TurnLeft),
        PadButton::RightTrigger => Some(TARSButton::TurnRight),
        PadButton::Select => Some(TARSButton::EnableMovement),
        PadButton::Start => Some(TARSButton::Calibrate),
        PadButton::DPadUp => Some(TARSButton::SpeedUp),
        PadButton::DPadDown => Some(TARSButton::SpeedDown),
        PadButton::DPadLeft => Some(TARSButton::TurnLeft),
        PadButton::DPadRight => Some(TARSButton::TurnRight),
        PadButton::Other => None,
    }
}

/// The pad's state is sound: its speed lies between 1 and 20 tenths.
pub open spec fn pad_state_ok(s: PadState) -> bool {
    1 <= s.speed_tenths <= 20
}

/// The state a command leaves the pad in.
pub open spec fn next_pad_state(s: PadState, b: TARSButton) -> PadState {
    match b {
        TARSButton::EnableMovement => PadState { movement_enabled: !s.movement_enabled, ..s },
        TARSButton::SpeedUp => PadState { speed_tenths: if s.speed_tenths + 1 > 20 { 20 } else { (s.speed_tenths + 1) as u8 }, ..s },
        TARSButton::SpeedDown => PadState { speed_tenths: if s.speed_tenths - 1 < 1 { 1 } else { (s.speed_tenths - 1) as u8 }, ..s },
        _ => s,
    }
}

/// Whether a command is sent for a button, and which: movement only while
/// enabled, stop and neutral always, nothing for the pad's own settings.
pub open spec fn sends(s: PadState, b: TARSButton, c: Option<MovementCommand>) -> bool {
    match b {
        TARSButton::StepForward => if s.movement_enabled { c == Some(MovementCommand::StepForward) } else { c is None },
        TARSButton::TurnLeft => if s.movement_enabled { c == Some(MovementCommand::TurnLeft) } else { c is None },
        TARSButton::TurnRight => if s.movement_enabled { c == Some(MovementCommand::TurnRight) } else { c is None },
        TARSButton::EmergencyStop => c == Some(MovementCommand::EmergencyStop),
        TARSButton::NeutralPose => c == Some(MovementCommand::Neutral),
        _ => c is None,
    }
}

/// The command of a button, if it has one.
pub fn map_button_to_command(button: PadButton) -> (r: Option<TARSButton>)
    ensures
        r == button_command(button),
{
    match button {
        PadButton::South => Some(TARSButton::StepForward),
        PadButton::East => Some(TARSButton::EmergencyStop),
        PadButton::North => Some(TARSButton::NeutralPose),
        PadButton::West => Some(TARSButton::Calibrate),
        PadButton::LeftTrigger => Some(TARSButton::TurnLeft),
        PadButton::RightTrigger => Some(TARSButton::TurnRight),
        PadButton::Select => Some(TARSButton::EnableMovement),
        PadButton::Start => Some(TARSButton::Calibrate),
        PadButton::DPadUp => Some(TARSButton::SpeedUp),
        PadButton::DPadDown => Some(TARSButton::SpeedDown),
        PadButton::DPadLeft => Some(TARSButton::TurnLeft),
        PadButton::DPadRight => Some(TARSButton::TurnRight),
        PadButton::Other => None,
    }
}

impl PadState {
    /// Disconnected, movement enabled, at normal speed.
    pub fn new() -> (s: Self)
        ensures
            s == (PadState { connected: false, movement_enabled: true, speed_tenths: 10 }),
    {
        PadState { connected: false, movement_enabled: true, speed_tenths: 10 }
    }

    /// Handles a command: updates the pad's own settings and gives the
    /// movement command to send, if any.
    pub fn handle_button_command(&mut self, b: TARSButton) -> (c: Option<MovementCommand>)
        requires
            pad_state_ok(*old(self)),
        ensures
            *final(self) == next_pad_state(*old(self), b),
            pad_state_ok(*final(self)),
            sends(*old(self), b, c),
    {
        match b {
            TARSButton::StepForward => if self.movement_enabled {
                Some(MovementCommand::StepForward)
            } else {
                None
            },
            TARSButton::TurnLeft => if self.movement_enabled {
                Some(MovementCommand::TurnLeft)
            } else {
                None
            },
            TARSButton::TurnRight => if self.movement_enabled {
                Some(MovementCommand::TurnRight)
            } else {
                None
            },
            TARSButton::EmergencyStop => Some(MovementCommand::EmergencyStop),
            TARSButton::NeutralPose => Some(MovementCommand::Neutral),
            TARSButton::Calibrate => None,
            TARSButton::EnableMovement => {
                self.movement_enabled = !self.movement_enabled;
                None
            },
            TARSButton::SpeedUp => {
                self.speed_tenths = if self.speed_tenths >= 20 { 20 } else { self.speed_tenths + 1 };
                None
            },
            TARSButton::SpeedDown => {
                self.speed_tenths = if self.speed_tenths <= 1 { 1 } else { self.speed_tenths - 1 };
                None
            },
        }
    }

    /// A pad connected.
    pub fn on_connected(&mut self)
        ensures
            *final(self) == (PadState { connected: true, ..*old(self) }),
    {
        self.connected = true;
    }

    /// A pad lost: it is marked disconnected and an emergency stop is sent.
    pub fn on_disconnected(&mut self) -> (c: MovementCommand)
        ensures
            *final(self) == (PadState { connected: false, ..*old(self) }),
            c == MovementCommand::EmergencyStop,
    {
        self.connected = false;
        MovementCommand::EmergencyStop
    }
}

/// Whether a command is carried out now: emergency stops and the neutral
/// pose always, other commands only once the repeat delay has passed since
/// the last one carried out.
pub open spec fn executes_now(command: MovementCommand, ms_since_last: u64, repeat_delay_ms: u64) -> bool {
    match command {
        MovementCommand::EmergencyStop => true,
        MovementCommand::Neutral => true,
        _ => ms_since_last >= repeat_delay_ms,
    }
}

/// Whether a command is carried out now (see `executes_now`).
pub fn should_execute(command: &MovementCommand, ms_since_last: u64, repeat_delay_ms: u64) -> (r: bool)
    ensures
        r == executes_now(*command, ms_since_last, repeat_delay_ms),
{
    match command {
        MovementCommand::EmergencyStop => true,
        MovementCommand::Neutral => true,
        _ => ms_since_last >= repeat_delay_ms,
    }
}

/// Whether the safety monitor disables movement: for a connected pad
/// silent longer than the timeout, or with no pad while movement is
/// enabled.
pub fn safety_should_disable(connected: bool, ms_since_input: u64, timeout_ms: u64, movement_enabled: bool) -> (r: bool)
    ensures
        r == if connected { ms_since_input > timeout_ms } else { movement_enabled },
{
    if connected {
        ms_since_input > timeout_ms
    } else {
        movement_enabled
    }
}

/// A disabled pad sends no movement: whatever button is pressed, at most a
/// stop or the neutral pose goes out.
pub proof fn law_disabled_pad_sends_no_motion(s: PadState, b: TARSButton, c: Option<MovementCommand>)
    requires
        !s.movement_enabled,
        sends(s, b, c),
    ensures
        c is None || c == Some(MovementCommand::EmergencyStop) || c == Some(MovementCommand::Neutral),
{
}

/// Emergency stops and the neutral pose are never held back by the repeat
/// delay, however soon they follow the last command.
pub proof fn law_stop_never_delayed(ms_since_last: u64, repeat_delay_ms: u64)
    ensures
        executes_now(MovementCommand::EmergencyStop, ms_since_last, repeat_delay_ms),
        executes_now(MovementCommand::Neutral, ms_since_last, repeat_delay_ms),
{
}

/// The button on the other side of the pad: left and right trigger and
/// d-pad directions swap, the others stay.
pub open spec fn mirrored_button(b: PadButton) -> PadButton {
    match b {
        PadButton::LeftTrigger => PadButton::RightTrigger,
        PadButton::RightTrigger => PadButton::LeftTrigger,
        PadButton::DPadLeft => PadButton::DPadRight,
        PadButton::DPadRight => PadButton::DPadLeft,
        _ => b,
    }
}

/// A command turned the other way: left and right turns swap, the others
/// stay.
pub open spec fn mirrored_command(c: Option<TARSButton>) -> Option<TARSButton> {
    match c {
        Some(TARSButton::TurnLeft) => Some(TARSButton::TurnRight),
        Some(TARSButton::TurnRight) => Some(TARSButton::TurnLeft),
        _ => c,
    }
}

/// A button turns TARS toward its own side of the pad: exactly the left
/// trigger and the left d-pad turn left, exactly the right trigger and the
/// right d-pad turn right, and pressing the matching button on the other
/// side gives the same command turned the other way. Only the east button
/// stops in an emergency, only the south button steps, up and down on the
/// d-pad speed up and slow down, north returns to neutral, select enables
/// movement, west and start calibrate, and other buttons do nothing.
pub proof fn law_buttons_turn_toward_their_side(b: PadButton)
    ensures
        (button_command(b) == Some(TARSButton::TurnLeft)) <==> (b == PadButton::LeftTrigger || b == PadButton::DPadLeft),
        (button_command(b) == Some(TARSButton::TurnRight)) <==> (b == PadButton::RightTrigger || b == PadButton::DPadRight),
        button_command(mirrored_button(b)) == mirrored_command(button_command(b)),
        (button_command(b) == Some(TARSButton::EmergencyStop)) <==> b == PadButton::East,
        (button_command(b) == Some(TARSButton::StepForward)) <==> b == PadButton::South,
        (button_command(b) == Some(TARSButton::SpeedUp)) <==> b == PadButton::DPadUp,
        (button_command(b) == Some(TARSButton::SpeedDown)) <==> b == PadButton::DPadDown,
        (button_command(b) == Some(TARSButton::NeutralPose)) <==> b == PadButton::North,
        (button_command(b) == Some(TARSButton::EnableMovement)) <==> b == PadButton::Select,
        (button_command(b) == Some(TARSButton::Calibrate)) <==> (b == PadButton::West || b == PadButton::Start),
        button_command(b) is None <==> b == PadButton::Other,
{
}

} // verus!
