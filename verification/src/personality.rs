//! TARS personality: engineering standards, coding standards, the rules that
//! decide how TARS phrases a reply.

pub mod engineering_manager;
pub mod coding_standards;
pub mod tars_core;
