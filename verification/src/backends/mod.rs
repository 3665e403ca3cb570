//! Backend implementations of [`crate::StreamingAsr`].

pub mod mock;
pub mod sherpa_onnx;
