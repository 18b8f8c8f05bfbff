//! Texture pixel preparation. Decoding the compressed tile texture is
//! delegated to the image crate behind one trusted wrapper; flipping the
//! decoded rows bottom-up — the layout GPU texture upload expects — is the
//! library's own verified work.

use vstd::arithmetic::div_mod::lemma_fundamental_div_mod_converse;
use vstd::prelude::*;

verus! {

/// A decoded image: RGBA bytes in row-major order, four bytes per pixel.
pub struct RgbaBuffer {
    pub width: u32,
    pub height: u32,
    pub pixels: Vec<u8>,
}

impl RgbaBuffer {
    /// Well-formedness: exactly four bytes for each of the
    /// `width * height` pixels.
    pub open spec fn wf(self) -> bool {
        self.pixels@.len() == 4 * (self.width as int) * (self.height as int)
    }
}

/// What the image decoder yields for an encoded byte stream: the RGBA
/// bytes with the width and height, or nothing when the stream is not a
/// well-formed image. Decoding depends on the bytes alone.
pub uninterp spec fn decoded_rgba(bytes: Seq<u8>) -> Option<(Seq<u8>, u32, u32)>;

/// Relies on image::load with the PNG format and
/// image::DynamicImage::to_rgba8: decoding is a pure function of the input
/// bytes; a decoded image's buffer holds exactly four bytes per pixel for
/// `width * height` pixels; a stream that does not decode yields the
/// decoder's error, carried here as its message.
#[verifier::external_body]
fn decode_png_rgba(bytes: &Vec<u8>) -> (r: Result<RgbaBuffer, String>)
    ensures
        r is Ok <==> decoded_rgba(bytes@) is Some,
        r matches Ok(img) ==> decoded_rgba(bytes@) == Some((img.pixels@, img.width, img.height))
            && img.pixels@.len() == 4 * (img.width as int) * (img.height as int),
{
    match image::load(std::io::Cursor::new(&bytes[..]), image::ImageFormat::Png) {
        Ok(decoded) => {
            let rgba = decoded.to_rgba8();
            let (width, height) = rgba.dimensions();
            Ok(RgbaBuffer { width, height, pixels: rgba.into_raw() })
        },
        Err(e) => Err(format!("{}", e)),
    }
}

/// Where byte `k` of the flipped buffer comes from: the same offset within
/// the mirrored row `height - 1 - k / (4 * width)`.
pub open spec fn flip_source(k: int, width: int, height: int) -> int {
    (height - 1 - k / (4 * width)) * (4 * width) + k % (4 * width)
}

/// The pixel buffer with its rows in reverse order: the first output row
/// is the last input row.
pub open spec fn flipped_rows(pixels: Seq<u8>, width: int, height: int) -> Seq<u8>
    recommends
        1 <= width,
        pixels.len() == 4 * width * height,
{
    Seq::new(pixels.len(), |k: int| pixels[flip_source(k, width, height)])
}

/// Reverses the order of the pixel rows: row `i` of the result is row
/// `height - 1 - i` of the input.
#[verifier::loop_isolation(false)]
pub fn flip_rows(img: &RgbaBuffer) -> (r: RgbaBuffer)
    requires
        img.wf(),
        1 <= img.width,
        1 <= img.height,
    ensures
        r.width == img.width,
        r.height == img.height,
        r.wf(),
        r.pixels@ == flipped_rows(img.pixels@, img.width as int, img.height as int),
{
    let ghost wi = img.width as int;
    let ghost hi = img.height as int;
    proof {
        assert(4 * wi <= 4 * wi * hi && 0 < 4 * wi) by (nonlinear_arith)
            requires
                1 <= wi,
                1 <= hi,
        ;
    }
    let n = img.pixels.len();
    let w = img.width as usize;
    let h = img.height as usize;
    let row_bytes: usize = 4 * w;
    let ghost rb = 4 * wi;
    let mut out: Vec<u8> = Vec::new();
    let mut row: usize = 0;
    while row < h
        invariant
            row <= h,
            out@.len() == row * rb,
            forall|k: int|
                0 <= k < out@.len() ==> #[trigger] out@[k] == img.pixels@[flip_source(k, wi, hi)],
        decreases h - row,
    {
        proof {
            assert(0 <= (hi - 1 - row) * rb && (hi - 1 - row) * rb + rb <= rb * hi && (row + 1)
                * rb == row * rb + rb && row * rb + rb <= rb * hi && rb * hi == 4 * wi * hi)
                by (nonlinear_arith)
                requires
                    0 <= row < hi,
                    0 < rb,
                    rb == 4 * wi,
            ;
        }
        let src_row: usize = h - 1 - row;
        let mut b: usize = 0;
        while b < row_bytes
            invariant
                b <= row_bytes,
                src_row == hi - 1 - row,
                row < hi,
                out@.len() == row * rb + b,
                (hi - 1 - row) * rb + rb <= rb * hi,
                rb * hi == 4 * wi * hi,
                (row + 1) * rb == row * rb + rb,
                0 <= (hi - 1 - row) * rb,
                forall|k: int|
                    0 <= k < out@.len() ==> #[trigger] out@[k] == img.pixels@[flip_source(k, wi, hi)],
            decreases row_bytes - b,
        {
            let idx: usize = src_row * row_bytes + b;
            out.push(img.pixels[idx]);
            proof {
                let k = row * rb + b;
                lemma_fundamental_div_mod_converse(k, rb, row as int, b as int);
            }
            b = b + 1;
        }
        row = row + 1;
    }
    proof {
        assert(hi * (4 * wi) == 4 * wi * hi) by (nonlinear_arith);
        assert(out@ =~= flipped_rows(img.pixels@, wi, hi));
    }
    RgbaBuffer { width: img.width, height: img.height, pixels: out }
}

/// What `prepare_texture` promises of a successful result, given the
/// decoder's output `(pix, w, h)`: the dimensions are the decoder's, and
/// the buffer is the decoded one with its rows reversed (unchanged when
/// either dimension is zero, where there is no row to move).
pub open spec fn prepared_ok(img: RgbaBuffer, pix: Seq<u8>, w: u32, h: u32) -> bool {
    &&& img.width == w
    &&& img.height == h
    &&& img.wf()
    &&& (1 <= w && 1 <= h ==> img.pixels@ == flipped_rows(pix, w as int, h as int))
    &&& (w == 0 || h == 0 ==> img.pixels@ == pix)
}

/// Decodes an encoded image and reverses its pixel rows, yielding the
/// bottom-up RGBA buffer that GPU texture upload expects. Fails exactly
/// when the bytes do not decode, with the decoder's message.
pub fn prepare_texture(bytes: &Vec<u8>) -> (r: Result<RgbaBuffer, String>)
    ensures
        r is Ok <==> decoded_rgba(bytes@) is Some,
        r matches Ok(img) ==> decoded_rgba(bytes@) matches Some(d) && prepared_ok(
            img,
            d.0,
            d.1,
            d.2,
        ),
{
    match decode_png_rgba(bytes) {
        Ok(img) => {
            if img.width == 0 || img.height == 0 {
                Ok(img)
            } else {
                Ok(flip_rows(&img))
            }
        },
        Err(e) => Err(e),
    }
}

} // verus!
