//! A GPU image-correction pipeline, described as plain values: binding signatures checked when
//! a stage is built, dispatch sizing, the command recording of a chain of stages, histogram
//! accumulation, timestamp profiling and the protocol of a buffer readback.
pub mod binding;
pub mod chain;
pub mod dispatch;
pub mod histogram;
pub mod profiler;
pub mod readback;
pub mod stage;
