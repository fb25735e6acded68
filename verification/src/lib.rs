//! The rules of a snake game played on an 8x8 LED matrix with an analog
//! joystick, together with the decisions of the three tasks that drive it.
//!
//! Nothing in this crate touches a peripheral: readings come in and display
//! commands and deadlines go out as plain values.

pub mod body;
pub mod game;
pub mod io_controller;
pub mod joystick;
pub mod rng;
pub mod scheduler;
