//! Image upload pipeline: validation of the uploaded multipart field, format
//! resolution, decoding, transform hooks, encoding and error mapping.

pub mod codec;
pub mod error;
pub mod field;
pub mod format;
pub mod pipeline;
pub mod response;
pub mod transform;
