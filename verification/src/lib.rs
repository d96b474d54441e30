//! Verified core of the daily-task automation client for the "大乐斗" web game.
use vstd::prelude::*;

pub mod text;
pub mod text_spec;
pub mod common;
pub mod dw;
