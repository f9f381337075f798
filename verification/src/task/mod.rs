//! Tasks, the scheduler and the task manager.

pub mod current;
pub mod lifecycle;
pub mod manager;
pub mod schedule;
pub mod structs;
pub mod tree;
