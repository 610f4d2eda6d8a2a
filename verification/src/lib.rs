//! Verified core of a GPU-driver call tracer.
//!
//! The crate renders intercepted driver-API call arguments into readable
//! trace lines and synthesizes the machine-code trampolines that report a
//! call before forwarding it, unchanged, to the real implementation.
//!
//! Everything here computes over plain values: a separate, unverified shell
//! decodes raw argument memory into the model of [`value`], hands buffers to
//! the operating system, and performs symbol lookup. The rendering rules,
//! the override table, the trampoline instruction encodings and the
//! interception bookkeeping are all specified and proved in this crate.

pub mod calls;
pub mod catalog;
pub mod format;
pub mod intercept;
pub mod laws;
pub mod memop;
pub mod render;
pub mod text;
pub mod trampoline;
pub mod value;
