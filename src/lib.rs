//! Frame and resource lifecycle core for a window-driven renderer.
//!
//! The core never talks to the GPU itself: each lifecycle call returns the
//! exact script of GPU commands to perform, and every script is proved to be
//! valid against an abstract model of live resources and in-flight work.
use vstd::prelude::*;

pub mod tint;
pub mod surface;
pub mod input;
pub mod gpu_model;
pub mod lifecycle;
pub mod laws;
