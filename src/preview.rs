use vstd::prelude::*;

use crate::frame::PixelBuffer;

verus! {

/// Vertices of the full-screen quad: two triangles, generated in the vertex stage.
pub const QUAD_VERTEX_COUNT: u32 = 6;

/// Instances drawn per frame.
pub const QUAD_INSTANCE_COUNT: u32 = 1;

/// How a pixel buffer is laid out for its one transfer into the texture.
#[derive(Clone, Copy, Debug, PartialEq, Eq, Structural)]
pub struct UploadLayout {
    /// Texture and surface width in texels.
    pub width: u32,
    /// Texture and surface height in texels.
    pub height: u32,
    /// Row stride of the source bytes: four per texel.
    pub bytes_per_row: u32,
    /// Rows in the one image uploaded.
    pub rows_per_image: u32,
}

/// The buffer can be uploaded: it has texels and its row stride fits in 32 bits.
pub open spec fn uploadable(p: &PixelBuffer) -> bool {
    &&& p.width > 0
    &&& p.height > 0
    &&& 4 * p.width <= u32::MAX
}

/// The layout of the upload of `p`, or `None` where a stride or row count
/// would be zero or the stride does not fit in 32 bits.
pub fn upload_layout(p: &PixelBuffer) -> (r: Option<UploadLayout>)
    ensures
        r is Some <==> uploadable(p),
        r matches Some(l) ==> l == (UploadLayout {
            width: p.width,
            height: p.height,
            bytes_per_row: (4 * p.width) as u32,
            rows_per_image: p.height,
        }),
{
    if p.width == 0 || p.height == 0 {
        return None;
    }
    match p.width.checked_mul(4) {
        Some(stride) => Some(
            UploadLayout {
                width: p.width,
                height: p.height,
                bytes_per_row: stride,
                rows_per_image: p.height,
            },
        ),
        None => None,
    }
}

} // verus!
