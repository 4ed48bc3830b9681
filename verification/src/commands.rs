//! One entry point per command: each returns the engine for its request,
//! ready to be driven.

pub mod disable;
pub mod enable;
pub mod switch_kernel;
