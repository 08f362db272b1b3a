//! Compression multiplexer: one interface to several compression
//! algorithms, each served by a provider, with compressor and decompressor
//! objects that route requests by algorithm, and zstd's dictionary and
//! advanced-parameter calls.

pub mod buffer;
pub mod codecs;
pub mod dispatcher;
pub mod openzl_ffi;
pub mod providers;
pub mod text;
pub mod zstd_advanced;
pub mod zstd_ctx;
pub mod zstd_extras;

pub use dispatcher::{Compressor, Decompressor, MultiplexerImpl};
pub use providers::{Algorithm, CompressionProvider};
