//! Camera RAW decoding support: error classification, packed sRGB image
//! buffers, JPEG thumbnail conversion, and the classification and staging of
//! the calls into LibRaw, with their contracts proved by Verus.

pub mod adapter;
pub mod error;
pub mod image;
pub mod jpeg;
pub mod text;

pub use adapter::LibRawAdapter;
pub use error::Error;
pub use image::ImageBuffer;
