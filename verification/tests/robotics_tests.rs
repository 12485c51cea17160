use gsteng::robotics::gamepad_controller::{map_button_to_command, safety_should_disable, should_execute, PadButton, PadState, TARSButton};
use gsteng::robotics::mobility_controller::{ensure_walking, ensure_wheeled, MobilityMode};
use gsteng::robotics::pca9685_controller::{pwm_bytes, MockI2C, PCA9685Controller, PCA9685Error};
use gsteng::robotics::servo_config::{MovementPose, ServoConfig, ServoId, TARSPoses, TARSServoConfig};
use gsteng::robotics::tars_movement::{
    check_calibration_allowed, check_enabled, command_announcement_text, get_available_poses, pose_by_name,
    step_forward_phases, MovementCommand, MovementStatus,
};
use std::convert::TryFrom;

#[test]
fn test_servo_id_conversion() {
    assert_eq!(ServoId::RightHipForwardBack as u8, 0);
    assert_eq!(ServoId::Head as u8, 8);

    assert_eq!(ServoId::try_from(0).unwrap(), ServoId::RightHipForwardBack);
    assert_eq!(ServoId::try_from(8).unwrap(), ServoId::Head);
    assert!(ServoId::try_from(9).is_err());
}

#[test]
fn servo_id_channel_round_trip() {
    for n in 0..9u8 {
        let id = ServoId::try_from(n).unwrap();
        assert_eq!(u8::from(id), n);
        assert_eq!(id.channel(), n);
    }
    assert_eq!(ServoId::from_channel(42).unwrap_err(), "Invalid servo ID: 42");
}

#[test]
fn test_tars_config_creation() {
    let config = TARSServoConfig::new();
    assert_eq!(config.configs.len(), 9);

    let head_config = config.get_config(ServoId::Head);
    assert!(head_config.is_some());
    assert_eq!(head_config.unwrap().name, "Head");
}

#[test]
fn servo_config_new_keeps_its_values() {
    let config = ServoConfig::new(150, 600, 375, "Test");
    assert_eq!(config.min_pwm, 150);
    assert_eq!(config.max_pwm, 600);
    assert_eq!(config.default_pwm, 375);
    assert_eq!(config.name, "Test");
}

#[test]
fn every_servo_has_a_configuration() {
    let config = TARSServoConfig::new();
    for n in 0..9u8 {
        let id = ServoId::try_from(n).unwrap();
        assert!(config.get_config(id).is_some());
    }
    assert_eq!(config.all_servos().len(), 9);
}

#[test]
fn turn_poses_mirror_each_other() {
    let left = TARSPoses::turn_left();
    let right = TARSPoses::turn_right();
    assert_eq!(left.positions.len(), right.positions.len());
    for (l, r) in left.positions.iter().zip(right.positions.iter()) {
        assert_eq!(l.0, r.0);
        if l.0 == ServoId::RightKnee || l.0 == ServoId::LeftKnee {
            assert_eq!(l.1, r.1);
        } else {
            assert_eq!(l.1, -r.1);
        }
    }
    assert_eq!(TARSPoses::all_poses().len(), 4);
    assert_eq!(TARSPoses::neutral().name, "Neutral");
}

#[test]
fn movement_pose_new_keeps_its_values() {
    let pose = MovementPose::new("Wave", vec![(ServoId::Head, 25)], 300);
    assert_eq!(pose.name, "Wave");
    assert_eq!(pose.positions, vec![(ServoId::Head, 25)]);
    assert_eq!(pose.duration_ms, 300);
}

#[test]
fn test_button_mapping() {
    assert_eq!(map_button_to_command(PadButton::South), Some(TARSButton::StepForward));
    assert_eq!(map_button_to_command(PadButton::East), Some(TARSButton::EmergencyStop));
    assert_eq!(map_button_to_command(PadButton::North), Some(TARSButton::NeutralPose));
    assert_eq!(map_button_to_command(PadButton::Other), None);
}

#[test]
fn disabled_pad_only_stops_and_centres() {
    let mut state = PadState::new();
    state.handle_button_command(TARSButton::EnableMovement);
    assert!(!state.movement_enabled);
    assert!(state.handle_button_command(TARSButton::StepForward).is_none());
    assert!(matches!(state.handle_button_command(TARSButton::EmergencyStop), Some(MovementCommand::EmergencyStop)));
    assert!(matches!(state.handle_button_command(TARSButton::NeutralPose), Some(MovementCommand::Neutral)));
}

#[test]
fn pad_speed_stays_between_limits() {
    let mut state = PadState::new();
    for _ in 0..30 {
        state.handle_button_command(TARSButton::SpeedUp);
    }
    assert_eq!(state.speed_tenths, 20);
    for _ in 0..30 {
        state.handle_button_command(TARSButton::SpeedDown);
    }
    assert_eq!(state.speed_tenths, 1);
}

#[test]
fn disconnecting_the_pad_stops_tars() {
    let mut state = PadState::new();
    state.on_connected();
    assert!(state.connected);
    assert!(matches!(state.on_disconnected(), MovementCommand::EmergencyStop));
    assert!(!state.connected);
}

#[test]
fn repeat_delay_and_safety_timeout() {
    assert!(should_execute(&MovementCommand::EmergencyStop, 0, 500));
    assert!(!should_execute(&MovementCommand::StepForward, 100, 500));
    assert!(should_execute(&MovementCommand::StepForward, 500, 500));
    assert!(safety_should_disable(true, 5001, 5000, true));
    assert!(!safety_should_disable(true, 5000, 5000, true));
    assert!(safety_should_disable(false, 0, 5000, true));
    assert!(!safety_should_disable(false, 0, 5000, false));
}

#[test]
fn test_invalid_servo_id() {
    let controller = PCA9685Controller::new(MockI2C::new(), 121);
    let result = controller.resolve_servo(99);
    assert!(result.is_err());
    assert!(result.unwrap_err().contains("Invalid servo ID"));
    let (id, config) = controller.resolve_servo(8).unwrap();
    assert_eq!(id, ServoId::Head);
    assert_eq!(config.name, "Head");
}

#[test]
fn test_mock_controller_initialization() {
    let mut controller = PCA9685Controller::new(MockI2C::new(), 121);
    assert!(controller.reset_device().is_ok());
    let old_mode = controller.program_prescaler().unwrap();
    assert!(controller.finish_initialization(old_mode).is_ok());
    assert!(controller.initialized);
}

#[test]
fn set_pwm_checks_channel_and_range() {
    let mut controller = PCA9685Controller::new(MockI2C::new(), 121);
    assert_eq!(controller.set_pwm(0, 0, 307).unwrap_err().message(), "Hardware not available: Controller not initialized");
    controller.reset_device().unwrap();
    let old_mode = controller.program_prescaler().unwrap();
    controller.finish_initialization(old_mode).unwrap();
    assert!(controller.set_pwm(0, 0, 307).is_ok());
    assert!(matches!(controller.set_pwm(16, 0, 307), Err(PCA9685Error::InvalidServo(16))));
    assert!(matches!(controller.set_pwm(0, 0, 5000), Err(PCA9685Error::InvalidPWM(5000))));
    assert!(controller.set_pwm(0, 0, 5000).unwrap_err().message().contains("5000"));
}

#[test]
fn pwm_bytes_split_on_and_off() {
    let (register, bytes) = pwm_bytes(1, 0x0102, 0x0304);
    assert_eq!(register, 0x06 + 4);
    assert_eq!(bytes, vec![0x02, 0x01, 0x04, 0x03]);
}

#[test]
fn test_movement_enable_disable() {
    assert!(check_enabled(false).is_err());
    assert!(check_enabled(true).is_ok());
    assert_eq!(check_enabled(false).unwrap_err(), "Movement is disabled. Safety protocols active.");
    assert!(check_calibration_allowed(false).is_err());
}

#[test]
fn test_pose_execution() {
    assert!(pose_by_name("neutral").is_ok());
    assert!(pose_by_name("turn_left").is_ok());
    assert!(pose_by_name("invalid_pose").is_err());
    assert_eq!(pose_by_name("invalid_pose").unwrap_err(), "Unknown pose: invalid_pose");
    assert_eq!(pose_by_name("LEFT").unwrap().name, "Turn Left");
}

#[test]
fn announcements_and_phases() {
    assert_eq!(command_announcement_text(&MovementCommand::StepForward), "Stepping forward, Cooper.");
    assert_eq!(
        command_announcement_text(&MovementCommand::Pose("wave".to_string())),
        "Executing wave pose. This better be important."
    );
    assert_eq!(step_forward_phases().len(), 3);
    assert_eq!(get_available_poses(), vec!["Neutral", "Step Forward", "Turn Left", "Turn Right"]);
}

#[test]
fn movement_status_records_poses_and_commands() {
    let mut status = MovementStatus::new();
    assert_eq!(status.current_pose, "Neutral");
    status.set_moving(true, "ignored");
    assert!(status.is_moving);
    let pose = TARSPoses::turn_left();
    status.record_pose(&pose);
    assert_eq!(status.current_pose, "Turn Left");
    assert_eq!(status.servo_positions, pose.positions);
    status.record_command(MovementCommand::TurnLeft);
    assert!(!status.is_moving);
    assert!(matches!(status.last_command, Some(MovementCommand::TurnLeft)));
}

#[test]
fn mobility_modes_gate_motion() {
    assert!(ensure_wheeled(MobilityMode::Wheeled).is_ok());
    assert_eq!(ensure_wheeled(MobilityMode::Walking).unwrap_err(), "Not in wheeled mode");
    assert!(ensure_walking(MobilityMode::Walking).is_ok());
    assert_eq!(ensure_walking(MobilityMode::Wheeled).unwrap_err(), "Not in walking mode");
}

#[test]
fn set_pwm_writes_the_channel_registers() {
    let mut controller = PCA9685Controller::new(MockI2C::new(), 121);
    controller.reset_device().unwrap();
    let old_mode = controller.program_prescaler().unwrap();
    controller.finish_initialization(old_mode).unwrap();
    assert_eq!(controller.i2c.registers.get(&0xFE), Some(&121));
    assert_eq!(controller.i2c.registers.get(&0x01), Some(&0x04));
    assert!(controller.set_pwm(8, 0, 375).is_ok());
    assert_eq!(controller.i2c.registers.get(&38), Some(&0x00));
    assert_eq!(controller.i2c.registers.get(&39), Some(&0x00));
    assert_eq!(controller.i2c.registers.get(&40), Some(&0x77));
    assert_eq!(controller.i2c.registers.get(&41), Some(&0x01));
    assert!(controller.set_pwm(16, 0, 375).is_err());
    assert_eq!(controller.i2c.registers.get(&102), None);
}
