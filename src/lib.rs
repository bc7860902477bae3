//! A decoded audio frame model and the native decoder's error taxonomy.
//!
//! The frame keeps its geometry (format, channel count, capacity), its
//! presentation timestamp and a traversal cursor; the cursor yields, for every
//! sample in `(time, channel)` order, the buffer segment and offset to read.

pub mod errors;
pub mod format;
pub mod frame;
