use vstd::prelude::*;

verus! {

#[verifier::external_type_specification]
#[verifier::external_body]
pub struct ExImageError(image::ImageError);

#[verifier::external_type_specification]
#[verifier::external_body]
pub struct ExJpegError(jpeg_decoder::Error);

#[verifier::external_type_specification]
#[verifier::external_body]
pub struct ExPngDecodingError(png::DecodingError);

/// An error of this library's own, carrying a message.
#[derive(Debug)]
pub struct DecodeErr(pub String);

impl DecodeErr {
    pub fn new(msg: &str) -> (err: DecodeErr)
        ensures
            err.0@ == msg@,
    {
        DecodeErr(msg.to_owned())
    }

    /// The message that the error carries.
    pub fn description(&self) -> (msg: &str)
        ensures
            msg@ == self.0@,
    {
        self.0.as_str()
    }
}

/// Why a frame could not be decoded.
#[derive(Debug)]
pub enum DecodeError {
    /// The input is of a kind that this library refuses, with the reason.
    Unsupported(DecodeErr),
    /// The `image` crate could not decode the input.
    Image(image::ImageError),
    /// The `jpeg-decoder` crate could not decode the input.
    Jpeg(jpeg_decoder::Error),
    /// The `png` crate could not decode the input.
    Png(png::DecodingError),
}

/// `err` is the refusal that carries the message `msg`.
pub open spec fn is_refusal(err: DecodeError, msg: Seq<char>) -> bool {
    err matches DecodeError::Unsupported(e) && e.0@ == msg
}

} // verus!
