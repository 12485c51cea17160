//! Servo identifiers and PWM limits of the TARS walking frame.

use crate::text::{decimal, fmt_u64, join2};
use vstd::prelude::*;

verus! {

broadcast use vstd::string::group_string_axioms;

/// The nine servos of the TARS frame, numbered as on the PWM board.
#[derive(Debug, Clone, Copy, PartialEq, Eq, Structural, Hash)]
pub enum ServoId {
    RightHipForwardBack,
    RightHipUpDown,
    RightKnee,
    LeftHipForwardBack,
    LeftHipUpDown,
    LeftKnee,
    RightShoulderForwardBack,
    LeftShoulderForwardBack,
    Head,
}

/// The PWM channel of a servo.
pub open spec fn servo_channel(id: ServoId) -> u8 {
    match id {
        ServoId::RightHipForwardBack => 0,
        ServoId::RightHipUpDown => 1,
        ServoId::RightKnee => 2,
        ServoId::LeftHipForwardBack => 3,
        ServoId::LeftHipUpDown => 4,
        ServoId::LeftKnee => 5,
        ServoId::RightShoulderForwardBack => 6,
        ServoId::LeftShoulderForwardBack => 7,
        ServoId::Head => 8,
    }
}

impl ServoId {
    /// The channel number of this servo.
    pub fn channel(self) -> (c: u8)
        ensures
            c == servo_channel(self),
    {
        match self {
            ServoId::RightHipForwardBack => 0,
            ServoId::RightHipUpDown => 1,
            ServoId::RightKnee => 2,
            ServoId::LeftHipForwardBack => 3,
            ServoId::LeftHipUpDown => 4,
            ServoId::LeftKnee => 5,
            ServoId::RightShoulderForwardBack => 6,
            ServoId::LeftShoulderForwardBack => 7,
            ServoId::Head => 8,
        }
    }
}

impl From<ServoId> for u8 {
    fn from(servo: ServoId) -> (c: u8) {
        servo.channel()
    }
}

impl vstd::std_specs::convert::FromSpecImpl<ServoId> for u8 {
    open spec fn obeys_from_spec() -> bool {
        true
    }

    open spec fn from_spec(v: ServoId) -> u8 {
        servo_channel(v)
    }
}

/// The servo on a channel, where there is one.
pub open spec fn servo_on_channel(n: u8) -> Option<ServoId> {
    if n == 0 {
        Some(ServoId::RightHipForwardBack)
    } else if n == 1 {
        Some(ServoId::RightHipUpDown)
    } else if n == 2 {
        Some(ServoId::RightKnee)
    } else if n == 3 {
        Some(ServoId::LeftHipForwardBack)
    } else if n == 4 {
        Some(ServoId::LeftHipUpDown)
    } else if n == 5 {
        Some(ServoId::LeftKnee)
    } else if n == 6 {
        Some(ServoId::RightShoulderForwardBack)
    } else if n == 7 {
        Some(ServoId::LeftShoulderForwardBack)
    } else if n == 8 {
        Some(ServoId::Head)
    } else {
        None
    }
}

/// The message of a channel number that names no servo.
pub open spec fn invalid_servo_message(n: u8) -> Seq<char> {
    "Invalid servo ID: "@ + decimal(n as nat)
}

impl ServoId {
    /// The servo on channel `n`; a channel above 8 is refused with
    /// "Invalid servo ID: n".
    pub fn from_channel(n: u8) -> (r: Result<ServoId, String>)
        ensures
            match r {
                Ok(id) => servo_on_channel(n) == Some(id),
                Err(msg) => servo_on_channel(n) is None && msg@ == invalid_servo_message(n),
            },
            r is Ok <==> n <= 8,
    {
        match n {
            0 => Ok(ServoId::RightHipForwardBack),
            1 => Ok(ServoId::RightHipUpDown),
            2 => Ok(ServoId::RightKnee),
            3 => Ok(ServoId::LeftHipForwardBack),
            4 => Ok(ServoId::LeftHipUpDown),
            5 => Ok(ServoId::LeftKnee),
            6 => Ok(ServoId::RightShoulderForwardBack),
            7 => Ok(ServoId::LeftShoulderForwardBack),
            8 => Ok(ServoId::Head),
            _ => {
                let digits = fmt_u64(n as u64);
                Err(join2("Invalid servo ID: ", digits.as_str()))
            },
        }
    }
}

impl TryFrom<u8> for ServoId {
    type Error = String;

    fn try_from(value: u8) -> (r: Result<ServoId, String>)
        ensures
            match r {
                Ok(id) => servo_on_channel(value) == Some(id),
                Err(msg) => servo_on_channel(value) is None && msg@ == invalid_servo_message(value),
            },
            r is Ok <==> value <= 8,
    {
        ServoId::from_channel(value)
    }
}

/// `try_from_spec` would have to fix the refused `String` itself, while the
/// conversion fixes only the text it holds; the conversion's own `ensures`
/// state its result instead, as `ServoId::from_channel` does.
impl vstd::std_specs::convert::TryFromSpecImpl<u8> for ServoId {
    open spec fn obeys_try_from_spec() -> bool {
        false
    }

    open spec fn try_from_spec(v: u8) -> Result<ServoId, String> {
        match servo_on_channel(v) {
            Some(id) => Ok(id),
            None => Err(choose|s: String| s@ == invalid_servo_message(v)),
        }
    }
}

/// Reading a servo's channel back gives the servo.
pub proof fn law_channel_round_trip(id: ServoId)
    ensures
        servo_on_channel(servo_channel(id)) == Some(id),
{
}

/// Every channel that names a servo is that servo's channel.
pub proof fn law_channel_names_servo(n: u8)
    requires
        n <= 8,
    ensures
        servo_on_channel(n) matches Some(id) && servo_channel(id) == n,
{
}

/// The PWM limits and display name of one servo.
#[derive(Debug, Clone)]
pub struct ServoConfig {
    pub min_pwm: u16,
    pub max_pwm: u16,
    pub default_pwm: u16,
    pub name: String,
}

impl ServoConfig {
    /// A servo configuration with the given limits and name.
    pub fn new(min_pwm: u16, max_pwm: u16, default_pwm: u16, name: &str) -> (c: Self)
        ensures
            c.min_pwm == min_pwm,
            c.max_pwm == max_pwm,
            c.default_pwm == default_pwm,
            c.name@ == name@,
    {
        ServoConfig { min_pwm, max_pwm, default_pwm, name: String::from_str(name) }
    }
}

/// The display name of each servo.
pub open spec fn servo_label(id: ServoId) -> Seq<char> {
    match id {
        ServoId::RightHipForwardBack => "Right Hip Forward/Back"@,
        ServoId::RightHipUpDown => "Right Hip Up/Down"@,
        ServoId::RightKnee => "Right Knee"@,
        ServoId::LeftHipForwardBack => "Left Hip Forward/Back"@,
        ServoId::LeftHipUpDown => "Left Hip Up/Down"@,
        ServoId::LeftKnee => "Left Knee"@,
        ServoId::RightShoulderForwardBack => "Right Shoulder Forward/Back"@,
        ServoId::LeftShoulderForwardBack => "Left Shoulder Forward/Back"@,
        ServoId::Head => "Head"@,
    }
}

/// The factory configuration of a servo: PWM between 150 and 600, resting
/// at 375, under its display name.
pub open spec fn is_factory_config(id: ServoId, c: ServoConfig) -> bool {
    &&& c.min_pwm == 150
    &&& c.max_pwm == 600
    &&& c.default_pwm == 375
    &&& c.name@ == servo_label(id)
}

/// The configuration of every servo of the frame, in channel order.
pub struct TARSServoConfig {
    pub configs: Vec<(ServoId, ServoConfig)>,
}

/// The first entry of `configs` for `servo`.
pub open spec fn first_entry_of(configs: Seq<(ServoId, ServoConfig)>, servo: ServoId, i: int) -> bool {
    &&& 0 <= i < configs.len()
    &&& configs[i].0 == servo
    &&& forall|j: int| 0 <= j < i ==> configs[j].0 != servo
}

impl TARSServoConfig {
    /// The nine servos in channel order, each with its factory configuration.
    pub fn new() -> (c: Self)
        ensures
            c.configs@.len() == 9,
            forall|i: int|
                0 <= i < 9 ==> servo_on_channel(i as u8) == Some(#[trigger] c.configs@[i].0)
                    && is_factory_config(c.configs@[i].0, c.configs@[i].1),
    {
        let mut configs: Vec<(ServoId, ServoConfig)> = Vec::new();
        configs.push((ServoId::RightHipForwardBack, ServoConfig::new(150, 600, 375, "Right Hip Forward/Back")));
        configs.push((ServoId::RightHipUpDown, ServoConfig::new(150, 600, 375, "Right Hip Up/Down")));
        configs.push((ServoId::RightKnee, ServoConfig::new(150, 600, 375, "Right Knee")));
        configs.push((ServoId::LeftHipForwardBack, ServoConfig::new(150, 600, 375, "Left Hip Forward/Back")));
        configs.push((ServoId::LeftHipUpDown, ServoConfig::new(150, 600, 375, "Left Hip Up/Down")));
        configs.push((ServoId::LeftKnee, ServoConfig::new(150, 600, 375, "Left Knee")));
        configs.push((ServoId::RightShoulderForwardBack, ServoConfig::new(150, 600, 375, "Right Shoulder Forward/Back")));
        configs.push((ServoId::LeftShoulderForwardBack, ServoConfig::new(150, 600, 375, "Left Shoulder Forward/Back")));
        configs.push((ServoId::Head, ServoConfig::new(150, 600, 375, "Head")));
        TARSServoConfig { configs }
    }

    /// The configuration of `servo`: that of its first entry, or `None`
    /// where it has none.
    pub fn get_config(&self, servo: ServoId) -> (r: Option<&ServoConfig>)
        ensures
            match r {
                Some(c) => exists|i: int| first_entry_of(self.configs@, servo, i) && *c == self.configs@[i].1,
                None => forall|i: int| 0 <= i < self.configs@.len() ==> self.configs@[i].0 != servo,
            },
    {
        let mut i: usize = 0;
        while i < self.configs.len()
            invariant
                i <= self.configs@.len(),
                forall|j: int| 0 <= j < i ==> self.configs@[j].0 != servo,
            decreases self.configs@.len() - i,
        {
            if self.configs[i].0 == servo {
                assert(first_entry_of(self.configs@, servo, i as int));
                return Some(&self.configs[i].1);
            }
            i = i + 1;
        }
        None
    }

    /// Every servo with its configuration.
    pub fn all_servos(&self) -> (r: &[(ServoId, ServoConfig)])
        ensures
            r@ == self.configs@,
    {
        self.configs.as_slice()
    }
}

impl Default for TARSServoConfig {
    fn default() -> (c: Self)
        ensures
            c.configs@.len() == 9,
    {
        TARSServoConfig::new()
    }
}

/// The factory table has one entry per servo: each servo is found, under
/// its own factory configuration.
pub proof fn law_factory_table_covers_every_servo(c: TARSServoConfig, servo: ServoId)
    requires
        c.configs@.len() == 9,
        forall|i: int|
            0 <= i < 9 ==> servo_on_channel(i as u8) == Some(#[trigger] c.configs@[i].0)
                && is_factory_config(c.configs@[i].0, c.configs@[i].1),
    ensures
        first_entry_of(c.configs@, servo, servo_channel(servo) as int),
        is_factory_config(servo, c.configs@[servo_channel(servo) as int].1),
{
    let k = servo_channel(servo) as int;
    assert(servo_on_channel(k as u8) == Some(c.configs@[k].0));
    assert forall|j: int| 0 <= j < k implies c.configs@[j].0 != servo by {
        assert(servo_on_channel(j as u8) == Some(c.configs@[j].0));
    }
}

/// A named pose: a target deflection for each servo, in hundredths of the
/// full travel (-100 is one end, 0 the middle, 100 the other end), reached
/// over `duration_ms`.
#[derive(Debug, Clone)]
pub struct MovementPose {
    pub name: String,
    pub positions: Vec<(ServoId, i16)>,
    pub duration_ms: u64,
}

impl MovementPose {
    /// A pose with the given name, targets and duration.
    pub fn new(name: &str, positions: Vec<(ServoId, i16)>, duration_ms: u64) -> (p: Self)
        ensures
            p.name@ == name@,
            p.positions@ == positions@,
            p.duration_ms == duration_ms,
    {
        MovementPose { name: String::from_str(name), positions, duration_ms }
    }
}

/// Targets for the nine servos, in channel order.
pub open spec fn frame_targets(t: Seq<i16>) -> Seq<(ServoId, i16)>
    recommends
        t.len() == 9,
{
    seq![
        (ServoId::RightHipForwardBack, t[0]),
        (ServoId::RightHipUpDown, t[1]),
        (ServoId::RightKnee, t[2]),
        (ServoId::LeftHipForwardBack, t[3]),
        (ServoId::LeftHipUpDown, t[4]),
        (ServoId::LeftKnee, t[5]),
        (ServoId::RightShoulderForwardBack, t[6]),
        (ServoId::LeftShoulderForwardBack, t[7]),
        (ServoId::Head, t[8]),
    ]
}

fn frame_target_vec(t: [i16; 9]) -> (v: Vec<(ServoId, i16)>)
    ensures
        v@ == frame_targets(t@),
{
    let mut v: Vec<(ServoId, i16)> = Vec::new();
    v.push((ServoId::RightHipForwardBack, t[0]));
    v.push((ServoId::RightHipUpDown, t[1]));
    v.push((ServoId::RightKnee, t[2]));
    v.push((ServoId::LeftHipForwardBack, t[3]));
    v.push((ServoId::LeftHipUpDown, t[4]));
    v.push((ServoId::LeftKnee, t[5]));
    v.push((ServoId::RightShoulderForwardBack, t[6]));
    v.push((ServoId::LeftShoulderForwardBack, t[7]));
    v.push((ServoId::Head, t[8]));
    assert(v@ =~= frame_targets(t@));
    v
}

/// Whether `p` is the pose with this name, these targets and this duration.
pub open spec fn is_pose(p: MovementPose, name: Seq<char>, t: Seq<i16>, duration_ms: u64) -> bool {
    &&& p.name@ == name
    &&& p.positions@ == frame_targets(t)
    &&& p.duration_ms == duration_ms
}

pub open spec fn neutral_targets() -> Seq<i16> {
    seq![0i16, 0i16, 0i16, 0i16, 0i16, 0i16, 0i16, 0i16, 0i16]
}

pub open spec fn step_forward_prep_targets() -> Seq<i16> {
    seq![-30i16, 20i16, 40i16, 30i16, -10i16, 20i16, 20i16, -20i16, 0i16]
}

pub open spec fn turn_right_targets() -> Seq<i16> {
    seq![40i16, 0i16, -20i16, -40i16, 0i16, -20i16, -30i16, 30i16, 30i16]
}

pub open spec fn turn_left_targets() -> Seq<i16> {
    seq![-40i16, 0i16, -20i16, 40i16, 0i16, -20i16, 30i16, -30i16, -30i16]
}

/// The predefined poses of the frame.
pub struct TARSPoses;

impl TARSPoses {
    /// Standing neutral: every servo centred, over one second.
    pub fn neutral() -> (p: MovementPose)
        ensures
            is_pose(p, "Neutral"@, neutral_targets(), 1000),
    {
        let t: [i16; 9] = [0, 0, 0, 0, 0, 0, 0, 0, 0];
        assert(t@ =~= neutral_targets());
        MovementPose::new("Neutral", frame_target_vec(t), 1000)
    }

    /// Preparation for a forward step.
    pub fn step_forward_prep() -> (p: MovementPose)
        ensures
            is_pose(p, "Step Forward Prep"@, step_forward_prep_targets(), 800),
    {
        let t: [i16; 9] = [-30, 20, 40, 30, -10, 20, 20, -20, 0];
        assert(t@ =~= step_forward_prep_targets());
        MovementPose::new("Step Forward Prep", frame_target_vec(t), 800)
    }

    /// Turning to the right.
    pub fn turn_right() -> (p: MovementPose)
        ensures
            is_pose(p, "Turn Right"@, turn_right_targets(), 600),
    {
        let t: [i16; 9] = [40, 0, -20, -40, 0, -20, -30, 30, 30];
        assert(t@ =~= turn_right_targets());
        MovementPose::new("Turn Right", frame_target_vec(t), 600)
    }

    /// Turning to the left.
    pub fn turn_left() -> (p: MovementPose)
        ensures
            is_pose(p, "Turn Left"@, turn_left_targets(), 600),
    {
        let t: [i16; 9] = [-40, 0, -20, 40, 0, -20, 30, -30, -30];
        assert(t@ =~= turn_left_targets());
        MovementPose::new("Turn Left", frame_target_vec(t), 600)
    }

    /// The four poses, in the order neutral, step preparation, right, left.
    pub fn all_poses() -> (v: Vec<MovementPose>)
        ensures
            v@.len() == 4,
            is_pose(v@[0], "Neutral"@, neutral_targets(), 1000),
            is_pose(v@[1], "Step Forward Prep"@, step_forward_prep_targets(), 800),
            is_pose(v@[2], "Turn Right"@, turn_right_targets(), 600),
            is_pose(v@[3], "Turn Left"@, turn_left_targets(), 600),
    {
        let mut v: Vec<MovementPose> = Vec::new();
        v.push(TARSPoses::neutral());
        v.push(TARSPoses::step_forward_prep());
        v.push(TARSPoses::turn_right());
        v.push(TARSPoses::turn_left());
        v
    }
}

/// Turning left mirrors turning right: each servo's target is negated, but
/// for the knees, which bend the same way in both turns.
pub proof fn law_turns_mirror()
    ensures
        forall|i: int|
            0 <= i < 9 && i != 2 && i != 5 ==> turn_left_targets()[i] == -turn_right_targets()[i],
        turn_left_targets()[2] == turn_right_targets()[2],
        turn_left_targets()[5] == turn_right_targets()[5],
{
}

/// Turning left mirrors turning right: every forward/back joint (both hips,
/// both shoulders) and the head take the opposite angle, while the lifting
/// joints and the knees hold the same; the hips of a right turn swing the
/// right hip forward and the left hip back, and a left turn the reverse.
pub proof fn law_turns_mirror_each_other()
    ensures
        forall|i: int| 0 <= i < 9 && (i == 0 || i == 3 || i == 6 || i == 7 || i == 8)
            ==> #[trigger] turn_left_targets()[i] == -turn_right_targets()[i],
        forall|i: int| 0 <= i < 9 && (i == 1 || i == 2 || i == 4 || i == 5)
            ==> #[trigger] turn_left_targets()[i] == turn_right_targets()[i],
        turn_right_targets()[servo_channel(ServoId::RightHipForwardBack) as int] > 0,
        turn_right_targets()[servo_channel(ServoId::LeftHipForwardBack) as int] < 0,
        turn_left_targets()[servo_channel(ServoId::LeftHipForwardBack) as int] > 0,
        turn_left_targets()[servo_channel(ServoId::RightHipForwardBack) as int] < 0,
{
}

} // verus!
