//! Turns game-controller input into pointer actions: button bindings,
//! connection lifecycle and the per-tick decisions of the control loop.

pub mod analog;
pub mod button;
pub mod config;
pub mod connection;
pub mod controller;
pub mod device;
pub mod logging;
pub mod pointer;
pub mod startup;
pub mod step;
pub mod text;
