//! Decoding any supported image file into RGB, and preparing RGB frames for
//! the AVIF encoder.

pub mod decoder;
pub mod encoder;
