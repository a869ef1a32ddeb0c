//! A decoded raster frame: one image of the animation, as a flat buffer of
//! RGBA bytes (four bytes per pixel, row-major).

use vstd::prelude::*;

verus! {

/// One decoded frame. Immutable once constructed: the frame sequence that
/// owns it never rewrites the pixel data.
#[derive(Debug, Clone)]
pub struct Frame {
    /// RGBA pixel bytes, in the decoder's row-major order.
    pub data: Vec<u8>,
}

impl View for Frame {
    type V = Seq<u8>;

    open spec fn view(&self) -> Seq<u8> {
        self.data@
    }
}

} // verus!
