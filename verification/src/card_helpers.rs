//! Helpers for defining card behaviors.

pub mod abilities;
pub mod delegates;
pub mod this;
