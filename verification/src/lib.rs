//! The buffer and status rules of incremental brotli compression and
//! decompression.
//!
//! The engine itself lives in `brotli_sys` and is reached through raw
//! pointers, so it is called from outside this library. What is here is
//! everything around such a call: what is handed to the engine, how the
//! caller's buffer views move once it has answered, and which status or
//! error the answer means.

mod codes;
pub mod compress;
pub mod decompress;
pub mod drain;
pub mod params;
pub mod report;
pub mod status;
pub mod view;

pub use compress::{compress_buf, Compress};
pub use decompress::{decompress_buf, Decompress};
pub use params::{CompressMode, CompressOp, CompressParams, Parameter};
pub use report::{DecoderReport, DecoderResult, EncoderReport};
pub use status::{CoStatus, DeStatus, Error};
