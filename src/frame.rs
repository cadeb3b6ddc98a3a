use vstd::prelude::*;

use crate::error::CaptureError;

verus! {

/// A snapshot of the root window as the display server hands it out: the
/// geometry and encoding fields of the server's image record and a copy of
/// its pixel bytes, row-major, `bits_per_pixel / 8` bytes per pixel in
/// blue, green, red, [padding] order.
pub struct RawFrame {
    pub width: i32,
    pub height: i32,
    pub bits_per_pixel: i32,
    pub data: Vec<u8>,
}

/// An owned RGBA8 image, row-major, top to bottom, four bytes per texel.
pub struct PixelBuffer {
    pub width: u32,
    pub height: u32,
    pub data: Vec<u8>,
}

impl PixelBuffer {
    /// Four bytes for each texel of the geometry, and every texel opaque.
    pub open spec fn wf(&self) -> bool {
        &&& self.data@.len() == self.width * self.height * 4
        &&& forall|t: int|
            0 <= t < self.width * self.height ==> #[trigger] self.data@[4 * t + 3] == 255u8
    }
}

/// Number of bytes that encode one source pixel.
pub open spec fn bytes_per_pixel(f: &RawFrame) -> int {
    f.bits_per_pixel as int / 8
}

/// Number of pixels the frame's own geometry fields describe.
pub open spec fn pixel_count(f: &RawFrame) -> int {
    f.width as int * f.height as int
}

/// The frame can be read as a packed pixel image: positive dimensions, a
/// whole number of bytes per pixel holding at least blue, green and red,
/// enough source bytes, and an output size that can be addressed.
pub open spec fn format_supported(f: &RawFrame) -> bool {
    &&& f.width > 0
    &&& f.height > 0
    &&& f.bits_per_pixel % 8 == 0
    &&& f.bits_per_pixel >= 24
    &&& pixel_count(f) * bytes_per_pixel(f) <= f.data@.len()
    &&& pixel_count(f) * 4 <= usize::MAX
}

/// Byte `i` of the RGBA image converted from BGR(A) source bytes `src`
/// with `bpp` bytes per pixel: channels red, green, blue come from source
/// bytes 2, 1, 0 of the pixel, and alpha is always opaque.
pub open spec fn converted_byte(src: Seq<u8>, bpp: int, i: int) -> u8 {
    let t = i / 4;
    let c = i % 4;
    if c == 3 {
        255u8
    } else {
        src[t * bpp + 2 - c]
    }
}

/// `p` is the RGBA conversion of frame `f`.
pub open spec fn converts(f: &RawFrame, p: &PixelBuffer) -> bool {
    &&& p.width == f.width
    &&& p.height == f.height
    &&& p.data@.len() == pixel_count(f) * 4
    &&& forall|i: int|
        0 <= i < p.data@.len() ==> #[trigger] p.data@[i] == converted_byte(
            f.data@,
            bytes_per_pixel(f),
            i,
        )
}

/// Every buffer extracted from a readable frame holds four bytes for each
/// pixel of the frame's geometry, and its alpha byte is opaque everywhere.
pub proof fn lemma_extracted_is_opaque(f: &RawFrame, p: &PixelBuffer)
    requires
        format_supported(f),
        converts(f, p),
    ensures
        p.data@.len() == f.width * f.height * 4,
        forall|t: int| 0 <= t < pixel_count(f) ==> #[trigger] p.data@[4 * t + 3] == 255u8,
        p.wf(),
{
    assert forall|t: int| 0 <= t < pixel_count(f) implies #[trigger] p.data@[4 * t + 3] == 255u8 by {
        assert((4 * t + 3) % 4 == 3);
        assert(p.data@[4 * t + 3] == converted_byte(f.data@, bytes_per_pixel(f), 4 * t + 3));
    }
}

/// A frame with no rows or no columns is never readable, so extraction
/// refuses it before it reads a pixel.
pub proof fn lemma_empty_frame_refused(f: &RawFrame)
    requires
        f.width == 0 || f.height == 0,
    ensures
        !format_supported(f),
{
}

proof fn lemma_pixel_in_bounds(t: int, n: int, bpp: int)
    requires
        0 <= t < n,
        bpp >= 3,
    ensures
        t * bpp + bpp <= n * bpp,
        t * bpp >= 0,
{
    assert(t * bpp + bpp <= n * bpp) by (nonlinear_arith)
        requires
            0 <= t < n,
            bpp >= 3,
    ;
    assert(t * bpp >= 0) by (nonlinear_arith)
        requires
            0 <= t,
            bpp >= 3,
    ;
}

/// Converts a raw BGR(A) frame into an RGBA pixel buffer of the frame's own
/// dimensions. A frame whose encoding or geometry cannot be read is refused
/// with `UnsupportedFormat` before any pixel byte is touched.
pub fn extract_image_buffer(f: &RawFrame) -> (r: Result<PixelBuffer, CaptureError>)
    ensures
        r.is_ok() <==> format_supported(f),
        f.width <= 0 || f.height <= 0 ==> r == Err::<PixelBuffer, CaptureError>(
            CaptureError::UnsupportedFormat,
        ),
        r is Err ==> r == Err::<PixelBuffer, CaptureError>(CaptureError::UnsupportedFormat),
        r matches Ok(p) ==> converts(f, &p) && p.wf(),
{
    if f.width <= 0 || f.height <= 0 || f.bits_per_pixel % 8 != 0 || f.bits_per_pixel < 24 {
        return Err(CaptureError::UnsupportedFormat);
    }
    let w: usize = f.width as usize;
    let h: usize = f.height as usize;
    let bpp: usize = (f.bits_per_pixel / 8) as usize;
    assert(bpp as int == bytes_per_pixel(f));
    let data_len: usize = f.data.len();
    let n: usize = match w.checked_mul(h) {
        Some(n) => n,
        None => {
            proof {
                assert(pixel_count(f) * 4 > usize::MAX) by (nonlinear_arith)
                    requires
                        pixel_count(f) == w * h,
                        w * h > usize::MAX,
                ;
            }
            return Err(CaptureError::UnsupportedFormat);
        },
    };
    let src_len: usize = match n.checked_mul(bpp) {
        Some(m) => m,
        None => {
            proof {
                assert(pixel_count(f) * bytes_per_pixel(f) > f.data@.len());
            }
            return Err(CaptureError::UnsupportedFormat);
        },
    };
    let out_len: usize = match n.checked_mul(4) {
        Some(m) => m,
        None => {
            return Err(CaptureError::UnsupportedFormat);
        },
    };
    if data_len < src_len {
        return Err(CaptureError::UnsupportedFormat);
    }
    let mut out: Vec<u8> = Vec::with_capacity(out_len);
    let mut t: usize = 0;
    while t < n
        invariant
            n == pixel_count(f),
            bpp == bytes_per_pixel(f),
            bpp >= 3,
            src_len == n * bpp,
            src_len <= f.data@.len(),
            out_len == n * 4,
            t <= n,
            out@.len() == t * 4,
            forall|i: int|
                0 <= i < out@.len() ==> #[trigger] out@[i] == converted_byte(f.data@, bpp as int, i),
        decreases n - t,
    {
        proof {
            lemma_pixel_in_bounds(t as int, n as int, bpp as int);
        }
        let base: usize = t * bpp;
        let blue: u8 = f.data[base];
        let green: u8 = f.data[base + 1];
        let red: u8 = f.data[base + 2];
        let ghost before = out@;
        out.push(red);
        out.push(green);
        out.push(blue);
        out.push(255u8);
        proof {
            assert forall|i: int| 0 <= i < out@.len() implies #[trigger] out@[i] == converted_byte(
                f.data@,
                bpp as int,
                i,
            ) by {
                if i >= before.len() {
                    assert(i / 4 == t as int && i % 4 == i - t * 4);
                } else {
                    assert(out@[i] == before[i]);
                }
            }
        }
        t = t + 1;
    }
    let p = PixelBuffer { width: f.width as u32, height: f.height as u32, data: out };
    proof {
        lemma_extracted_is_opaque(f, &p);
    }
    Ok(p)
}

} // verus!
