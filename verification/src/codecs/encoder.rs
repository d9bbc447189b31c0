use vstd::prelude::*;

verus! {

/// One pixel of 8-bit RGB, as the AVIF encoder takes it.
#[derive(Clone, Copy, Debug, PartialEq, Eq, Structural)]
pub struct Rgb8 {
    pub r: u8,
    pub g: u8,
    pub b: u8,
}

/// The `i`-th pixel of a flat RGB buffer: its bytes `3i`, `3i+1` and `3i+2`.
pub open spec fn pixel_at(buf: Seq<u8>, i: int) -> Rgb8 {
    Rgb8 { r: buf[3 * i], g: buf[3 * i + 1], b: buf[3 * i + 2] }
}

/// Groups a flat buffer of R,G,B bytes into pixels, as many as there are
/// whole triples; bytes after the last whole triple are left out.
pub fn to_rgb_pixels(buf: &Vec<u8>) -> (pixels: Vec<Rgb8>)
    ensures
        pixels.len() == buf.len() / 3,
        forall|i: int| 0 <= i < pixels.len() ==> #[trigger] pixels[i] == pixel_at(buf@, i),
        forall|i: int| 0 <= i < pixels.len() ==> (#[trigger] pixels[i]).r == buf[3 * i] && pixels[i].g == buf[3 * i
            + 1] && pixels[i].b == buf[3 * i + 2],
{
    let n: usize = buf.len() / 3;
    let mut pixels: Vec<Rgb8> = Vec::new();
    let mut i: usize = 0;
    while i < n
        invariant
            n == buf.len() / 3,
            i <= n,
            pixels.len() == i,
            forall|j: int| 0 <= j < i ==> #[trigger] pixels[j] == pixel_at(buf@, j),
        decreases n - i,
    {
        let k: usize = 3 * i;
        pixels.push(Rgb8 { r: buf[k], g: buf[k + 1], b: buf[k + 2] });
        i = i + 1;
    }
    pixels
}

} // verus!
