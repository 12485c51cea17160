//! Verified core of the TARS coding companion: robot servo configuration,
//! Raspberry Pi system configuration, personality and engineering-review
//! rules, speech command interpretation and the small data structures that
//! the application drives.

pub mod text;
pub mod chance;
pub mod clock;
pub mod robotics;
pub mod voice;
pub mod personality;
pub mod raspberry_pi;
pub mod vscode;
pub mod remote;
pub mod safety;
