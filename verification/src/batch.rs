//! A batch of items of one kind, gathered on their way through the pipeline.

use vstd::prelude::*;

verus! {

/// The paths, the buffers and the OCR results of a batch, each a list of
/// items of the same kind.
pub struct ProtoType<T> {
    path: Vec<T>,
    buf: Vec<T>,
    ocr_result: Vec<T>,
}

} // verus!
