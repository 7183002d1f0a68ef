use resvg::tiny_skia::Pixmap;
use usvg::Tree;
use vstd::prelude::*;
use vstd::utf8::valid_utf8;

verus! {

#[verifier::external_type_specification]
#[verifier::external_body]
pub struct ExTree(usvg::Tree);

#[verifier::external_type_specification]
#[verifier::external_body]
pub struct ExParseError(usvg::Error);

#[verifier::external_type_specification]
#[verifier::external_body]
pub struct ExPixmap(resvg::tiny_skia::Pixmap);

/// The RGBA bytes that a pixmap holds, row after row.
pub uninterp spec fn pixmap_data(p: Pixmap) -> Seq<u8>;

/// The width and height, in pixels, that a pixmap was made with.
pub uninterp spec fn pixmap_size(p: Pixmap) -> (u32, u32);

/// Whether `data` opens with the two magic bytes of gzip.
pub open spec fn starts_with_gzip_magic(data: Seq<u8>) -> bool {
    data.len() >= 2 && data[0] == 0x1fu8 && data[1] == 0x8bu8
}

/// Relies on usvg::Tree::from_data under default options: data that is not
/// gzip-compressed and not valid UTF-8 is refused.
#[verifier::external_body]
pub(crate) fn parse_svg(data: &[u8]) -> (r: Result<Tree, usvg::Error>)
    ensures
        !starts_with_gzip_magic(data@) && !valid_utf8(data@) ==> r is Err,
{
    Tree::from_data(data, &usvg::Options::default())
}

/// Relies on the `Display` impl of usvg::Error: the parser's diagnostic text.
#[verifier::external_body]
pub(crate) fn parse_error_text(e: &usvg::Error) -> String {
    e.to_string()
}

/// Relies on tiny_skia::Pixmap::new: a zero-filled pixmap of `width` by
/// `height` pixels, refused when a side is zero or a row of `4 * width` bytes
/// exceeds `i32::MAX`. Only then is the buffer allocated with `vec!`, which
/// panics beyond `isize::MAX`: hence the bound.
#[verifier::external_body]
pub(crate) fn new_pixmap(width: u32, height: u32) -> (r: Option<Pixmap>)
    requires
        width as int * 4 <= i32::MAX ==> width as int * height as int * 4 <= isize::MAX,
    ensures
        r is Some <==> (width > 0 && height > 0 && width as int * 4 <= i32::MAX),
        r matches Some(p) ==> pixmap_size(p) == (width, height) && pixmap_data(p) == Seq::new(
            (width as int * height as int * 4) as nat,
            |i: int| 0u8,
        ),
{
    Pixmap::new(width, height)
}

/// Relies on tiny_skia::Pixmap::width: the width the pixmap was made with,
/// never zero.
#[verifier::external_body]
pub(crate) fn pixmap_width(p: &Pixmap) -> (r: u32)
    ensures
        r == pixmap_size(*p).0,
        r > 0,
{
    p.width()
}

/// Relies on tiny_skia::Pixmap::height: the height the pixmap was made with,
/// never zero.
#[verifier::external_body]
pub(crate) fn pixmap_height(p: &Pixmap) -> (r: u32)
    ensures
        r == pixmap_size(*p).1,
        r > 0,
{
    p.height()
}

/// Relies on tiny_skia::Pixmap::take: the pixmap's bytes, at least four for
/// each pixel, row after row. A pixmap made from a longer slice keeps the
/// surplus at the end.
#[verifier::external_body]
pub(crate) fn take_pixels(p: Pixmap) -> (r: Vec<u8>)
    ensures
        r@ == pixmap_data(p),
        r@.len() >= pixmap_size(p).0 as int * pixmap_size(p).1 as int * 4,
{
    p.take()
}

} // verus!
