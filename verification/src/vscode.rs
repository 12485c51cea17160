//! Driving the VS Code command line.

pub mod cli;
