//! Protocol layer: checksum, framing and record headers.

pub mod checksum;
pub mod framing;
pub mod header;
pub mod request;

pub use checksum::validate_checksum;
pub use framing::{DriFrame, FrameParser};
pub use header::DriHeader;
