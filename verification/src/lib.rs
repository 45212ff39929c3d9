//! An OpenGL device for Pathfinder, written as a verified command planner.
//!
//! Every operation of the device decides which OpenGL calls to make, in which
//! order and with which arguments. This crate makes those decisions: each
//! operation returns (or appends to) a list of [`GlCommand`]s, and the caller
//! that owns the OpenGL context performs them in order. The pure parts of the
//! device (shader template expansion, the vertical flip of read-back pixels,
//! the mapping of Pathfinder enums to OpenGL enums, error classification) are
//! ordinary verified functions.

pub mod glenum;
pub mod types;
pub mod convert;
pub mod command;
pub mod state;
pub mod template;
pub mod pixels;
pub mod error;
pub mod device;
pub mod render;
pub mod resources;
pub mod laws;

