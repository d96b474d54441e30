//! Game layer: the tasks and the decisions each of them makes.
pub mod tasks;
