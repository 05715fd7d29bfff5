//! Decoding, classification, storage and aggregation of captured network frames.
pub mod protocol;
pub mod encoding;
pub mod frame;
pub mod stats;
pub mod store;
pub mod session;
