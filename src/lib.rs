//! Verified core of a safety layer over an opaque-handle inference engine.
//!
//! The engine itself (tensor storage, graph execution, model parsing) lives in
//! native code. What this crate owns are the decisions that the binding layer
//! takes on its own side of the boundary: validating caller-supplied sizes
//! before anything crosses into native code, turning native status codes into
//! a typed error taxonomy, the lifecycle of a graph and of an inference
//! session, and the callback slots of a streaming weight source together with
//! its stub callbacks.
pub mod buffer;
pub mod config;
pub mod error;
pub mod graph;
pub mod laws;
pub mod session;
pub mod stream;

pub use buffer::{check_normalize, check_pixel_data, MatPixelType};
pub use config::{native_thread_count, thread_count_from_native};
pub use error::{Error, ValidationError};
pub use graph::GraphState;
pub use session::SessionInputs;
pub use stream::{stub_read, stub_scan, CallbackSlots};
