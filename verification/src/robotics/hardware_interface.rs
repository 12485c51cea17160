//! How the robot's controllers are reached.

use vstd::prelude::*;

verus! {

/// A channel to a hardware device: a serial device path or a network
/// address.
#[derive(Debug, Clone)]
pub enum CommunicationBus {
    Serial(String),
    Network(String),
}

} // verus!
