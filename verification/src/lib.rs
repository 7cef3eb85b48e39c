//! Audio capture and mixing engine: device classification, stream
//! negotiation, sample normalization, channel remapping, mixing with clip
//! protection, and the capture-session life cycle.

pub mod device;
pub mod float32;
pub mod frame;
pub mod gain;
pub mod hotkeys;
pub mod loopback;
pub mod mixer;
pub mod payload;
pub mod remap;
pub mod resolve;
pub mod sample;
pub mod session;
pub mod stream;
pub mod text;
pub mod types;
