//! Decoding of a depth camera's raw frames into planes, temporal smoothing and point
//! selection, and the framing of point clouds for streaming clients.
pub mod cloud;
pub mod frame;
pub mod wire;
