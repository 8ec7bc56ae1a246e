//! Client-side core of the Rawdog length-prefixed request/response protocol.
//!
//! The crate covers the wire codec (size block, JSON metadata, base64
//! payload), the frame builder and frame reader, configuration validation,
//! and the status policy that turns a decoded response into a result.
//! Socket I/O itself lives outside the library; everything here works on
//! plain byte buffers and is verified.

pub mod client;
pub mod errors;
pub mod frame;
pub mod jsondec;
pub mod jsonenc;
pub mod models;
pub mod sizeblock;
pub mod textenc;
