//! The rules behind two small GPU demonstrations: a buffer-to-buffer copy and
//! a compute dispatch that scales every element of a buffer.
//!
//! The device itself is driven by the caller. This library decides what is
//! asked of the device, in which order, and whether what came back is right.

pub mod context;
pub mod content;
pub mod dispatch;
pub mod effect;
pub mod sequence;
pub mod text;
pub mod program;
pub mod usage;
