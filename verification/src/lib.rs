//! Reminder scheduling for a personal task list.
//!
//! A task carries a description and the instant at which it becomes due. The
//! library decides, for each poll of the task list, which tasks get a
//! reminder, which get a nag and which stay quiet, and it lays out the
//! statements by which the tasks are kept in their table.

pub mod clock;
pub mod decision;
pub mod commands;
pub mod cycle;
pub mod scheduler;
pub mod db;
