//! Decision logic of a GPU compute-dispatch pipeline and of a single-threaded
//! frame loop, each stated over plain values and proved with Verus.
//!
//! The GPU and the window system themselves are driven by the caller: this
//! library decides what to ask of them, in which order and with which sizes,
//! and what their answers mean.

pub mod context;
pub mod error;
pub mod pipeline;
pub mod dispatch;
pub mod frame;
