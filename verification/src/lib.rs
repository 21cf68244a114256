//! A model of a minimal OpenGL rendering bootstrap.
//!
//! The types here decide *which* windowing and graphics calls are issued and
//! with *which* arguments; they never touch the GPU or the window system.
//! Every method hands back the command (or commands) that a driver is then
//! expected to perform, in order.

pub mod attribute;
pub mod buffer;
pub mod command;
pub mod event;
pub mod window;
