//! Decoding of photos and screenshots into flat RGB frames, the pixel and text
//! handling around AVIF encoding and OCR, and the schedules of the encoding
//! benchmarks.

pub mod error;
pub mod codecs;
pub mod decoders;
pub mod ocr;
pub mod report;
pub mod prototype;
pub mod benchmark;
pub mod batch;
pub mod naming;

pub use error::{DecodeErr, DecodeError};
pub use codecs::decoder::{decode, decode_heif, decode_jp2k, decode_route, try_decode, try_decode_route};
