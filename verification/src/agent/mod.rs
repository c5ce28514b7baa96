//! How an agent plans a run and how it tells that one is complete.
pub mod completion;
pub mod completion_laws;
pub mod planner;
pub mod planner_laws;
pub mod reader;
pub mod routing_laws;
