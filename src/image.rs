use vstd::prelude::*;

verus! {

/// A rendered raster handed to the caller: `width * height` pixels of four
/// bytes each (red, green, blue, alpha), row-major with no padding.
///
/// The empty handle, with no bytes and all counts zero, stands for "nothing
/// was produced". The caller owns the bytes and releases them with
/// `free_image`.
pub struct RBImage {
    pub pixels: Vec<u8>,
    pub len: usize,
    pub width: u32,
    pub height: u32,
}

impl RBImage {
    /// All parts are zero: the handle carries nothing.
    pub open spec fn spec_is_empty(&self) -> bool {
        self.pixels@.len() == 0 && self.len == 0 && self.width == 0 && self.height == 0
    }

    /// Either fully empty or fully populated: never a partial handle.
    pub open spec fn wf(&self) -> bool {
        self.spec_is_empty() || (self.width > 0 && self.height > 0 && self.len
            == self.pixels@.len() && self.len == self.width as int * self.height as int * 4)
    }

    /// The handle that reports a failed render.
    pub fn empty() -> (r: RBImage)
        ensures
            r.spec_is_empty(),
            r.wf(),
    {
        RBImage { pixels: Vec::new(), len: 0, width: 0, height: 0 }
    }

    /// Whether the handle carries nothing.
    pub fn is_empty(&self) -> (r: bool)
        ensures
            r == self.spec_is_empty(),
    {
        self.pixels.len() == 0 && self.len == 0 && self.width == 0 && self.height == 0
    }
}

/// Releases the bytes of a handle. On an empty handle there is nothing to
/// release and nothing happens.
pub fn free_image(img: RBImage) {
    // The handle is owned here, so its bytes are released when it goes out of scope.
    let RBImage { pixels: _, len: _, width: _, height: _ } = img;
}

/// A well-formed handle is populated exactly when it carries
/// `width * height * 4` bytes, which is then more than zero.
pub proof fn lemma_populated_handle_size(img: RBImage)
    requires
        img.wf(),
    ensures
        !img.spec_is_empty() <==> (img.len > 0 && img.len == img.pixels@.len() && img.len
            == img.width as int * img.height as int * 4),
{
    if !img.spec_is_empty() {
        assert(img.width as int * img.height as int > 0) by (nonlinear_arith)
            requires
                img.width > 0,
                img.height > 0,
        ;
    }
}

} // verus!
