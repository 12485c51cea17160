//! The TARS robot: servo configuration, the PWM board, movement, gamepad
//! control and mobility.

pub mod gamepad_controller;
pub mod hardware_interface;
pub mod mobility_controller;
pub mod pca9685_controller;
pub mod servo_config;
pub mod tars_movement;
