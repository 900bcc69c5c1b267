//! Adapter around an external camera-raw processing engine.
//!
//! The engine itself is an opaque native collaborator: it opens a raw file,
//! unpacks the sensor data, develops it, and hands back a pixel buffer. This
//! crate holds everything that can be decided without running the engine:
//! the ordering of the pipeline's stages, the mapping from engine status
//! codes to typed failures, the no-thumbnail fallback, the validation of the
//! returned buffer against the 8-bit RGB size contract, and the accounting
//! that a session and an engine-owned buffer are released on every path.

pub mod decoder;
pub mod session;
