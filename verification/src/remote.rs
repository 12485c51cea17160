//! Remote engineering: Cline sessions and tasks, SSH tunnels, and the
//! executor that coordinates remote systems. HTTP requests, processes and
//! the clock are the application's part; the records, decisions and
//! reports are here.

pub mod cline_integration;
pub mod ssh_tunnel;
pub mod remote_executor;
