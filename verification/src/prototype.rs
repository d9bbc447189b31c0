//! The shapes of the whole pipeline: how pictures are compressed, what a
//! decodable source gives, and the state of a batch of pictures.

use vstd::prelude::*;

use crate::codecs::encoder::Rgb8;

verus! {

/// What the compression favours.
#[derive(Clone, Copy, Debug, PartialEq, Eq, Structural)]
pub enum CompressMode {
    Quality,
    Storage,
}

/// A source of pictures that can be decoded to RGB pixels and read by OCR.
pub trait Decode {
    fn decode(&self) -> Vec<Rgb8>;

    fn ocr(&self) -> Vec<String>;
}

/// A batch of pictures on their way through the pipeline: the input paths,
/// the AVIF files, the OCR texts, the settings and the tar archive.
pub struct ProtoType {
    inputs: Vec<String>,
    avifs: Vec<Vec<u8>>,
    ocr_results: Vec<String>,
    configs: json::JsonValue,
    tar: Vec<u8>,
}

impl ProtoType {
    /// Setting up a batch, which is still to be written: does nothing.
    pub fn init() {
    }

    /// Taking the pictures of a folder, which is still to be written: does
    /// nothing.
    pub fn input_forder() {
    }

    /// Taking pictures by their paths, which is still to be written: does
    /// nothing.
    pub fn input_flie_paths() {
    }
}

} // verus!
