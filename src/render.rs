use crate::error_channel::{set_err, ErrorChannel};
use crate::image::RBImage;
use crate::outside::{
    new_pixmap, parse_error_text, parse_svg, pixmap_data, pixmap_height, pixmap_size,
    pixmap_width, starts_with_gzip_magic, take_pixels,
};
use resvg::tiny_skia::Pixmap;
use usvg::Tree;
use vstd::prelude::*;
use vstd::utf8::valid_utf8;

verus! {

/// Why a render produced nothing.
#[derive(Debug)]
pub enum RenderError {
    /// Empty input, or a zero width or height.
    InvalidArguments,
    /// The document could not be parsed; holds the parser's diagnostic.
    ParseError(String),
    /// No pixel buffer of the requested size could be made.
    AllocationFailure,
}

/// The text recorded in the error channel for each failure.
pub open spec fn message_of(e: RenderError) -> Seq<char> {
    match e {
        RenderError::InvalidArguments => "invalid args"@,
        RenderError::ParseError(m) => "parse error: "@ + m@,
        RenderError::AllocationFailure => "alloc pixmap failed"@,
    }
}

/// A message that reports a parse failure: the fixed prefix, then the
/// parser's text.
pub open spec fn is_parse_error_message(m: Seq<char>) -> bool {
    exists|t: Seq<char>| m == "parse error: "@ + t
}

impl RenderError {
    /// The text recorded in the error channel for this failure.
    pub fn message(&self) -> (r: String)
        ensures
            r@ == message_of(*self),
    {
        match self {
            RenderError::InvalidArguments => String::from_str("invalid args"),
            RenderError::ParseError(m) => String::from_str("parse error: ").concat(m.as_str()),
            RenderError::AllocationFailure => String::from_str("alloc pixmap failed"),
        }
    }
}

/// A parsed document together with the zeroed canvas it is to be drawn on.
pub struct RenderJob {
    pub tree: Tree,
    pub pixmap: Pixmap,
}

/// The arguments name a non-empty document and a canvas of positive size.
pub open spec fn args_valid(svg_len: int, width: u32, height: u32) -> bool {
    svg_len > 0 && width > 0 && height > 0
}

/// A canvas of `width` by `height` pixels can be made: rows of `4 * width`
/// bytes stay within `i32::MAX` and the whole buffer within `isize::MAX`.
pub open spec fn pixmap_fits(width: u32, height: u32) -> bool {
    &&& width > 0
    &&& height > 0
    &&& width as int * 4 <= i32::MAX
    &&& width as int * height as int * 4 <= isize::MAX
}

/// Where `isize` has 64 bits, the bound on the whole buffer never bites: a
/// canvas fits as soon as its sides are positive and a row stays within
/// `i32::MAX`.
pub proof fn lemma_fits_where_pointers_are_wide(width: u32, height: u32)
    requires
        isize::MAX == 0x7fff_ffff_ffff_ffff,
        width > 0,
        height > 0,
        width as int * 4 <= i32::MAX,
    ensures
        pixmap_fits(width, height),
{
    assert(width as int * height as int * 4 <= 0x7fff_ffff_ffff_ffff) by (nonlinear_arith)
        requires
            width as int * 4 <= i32::MAX,
            height <= u32::MAX,
    ;
}

/// A zero-filled canvas of `width` by `height` pixels.
pub open spec fn blank_canvas(width: u32, height: u32) -> Seq<u8> {
    Seq::new((width as int * height as int * 4) as nat, |i: int| 0u8)
}

/// Checks the arguments of a render: the document must not be empty and both
/// sides of the canvas must be positive.
pub fn check_args(svg_len: usize, width: u32, height: u32) -> (r: Result<(), RenderError>)
    ensures
        r is Ok <==> args_valid(svg_len as int, width, height),
        r matches Err(e) ==> e is InvalidArguments,
{
    if svg_len == 0 || width == 0 || height == 0 {
        Err(RenderError::InvalidArguments)
    } else {
        Ok(())
    }
}

/// Makes the zeroed canvas for a parsed document.
pub fn allocate(tree: Tree, width: u32, height: u32) -> (r: Result<RenderJob, RenderError>)
    ensures
        r is Ok <==> pixmap_fits(width, height),
        r matches Ok(job) ==> job.tree == tree && pixmap_size(job.pixmap) == (width, height)
            && pixmap_data(job.pixmap) == blank_canvas(width, height),
        r matches Err(e) ==> e is AllocationFailure,
{
    proof {
        assert(width as int * height as int <= u32::MAX as int * u32::MAX as int) by (nonlinear_arith)
            requires
                width <= u32::MAX,
                height <= u32::MAX,
        ;
    }
    let bytes: u128 = width as u128 * height as u128 * 4;
    if bytes > isize::MAX as u128 {
        return Err(RenderError::AllocationFailure);
    }
    match new_pixmap(width, height) {
        Some(pixmap) => Ok(RenderJob { tree, pixmap }),
        None => Err(RenderError::AllocationFailure),
    }
}

/// Carries on from the parser's outcome: its diagnostic becomes a parse
/// error, a document goes on to get its canvas.
pub fn after_parse(parsed: Result<Tree, String>, width: u32, height: u32) -> (r: Result<
    RenderJob,
    RenderError,
>)
    ensures
        parsed matches Err(m) ==> r == Err::<RenderJob, RenderError>(RenderError::ParseError(m)),
        parsed matches Ok(t) ==> {
            &&& r is Ok <==> pixmap_fits(width, height)
            &&& r matches Ok(job) ==> job.tree == t && pixmap_size(job.pixmap) == (width, height)
                && pixmap_data(job.pixmap) == blank_canvas(width, height)
            &&& r matches Err(e) ==> e is AllocationFailure
        },
{
    match parsed {
        Err(m) => Err(RenderError::ParseError(m)),
        Ok(tree) => allocate(tree, width, height),
    }
}

/// The steps of a render up to drawing: check the arguments, parse the
/// document, make its canvas. Stops at the first failure.
pub fn begin_render(svg: &[u8], width: u32, height: u32) -> (r: Result<RenderJob, RenderError>)
    ensures
        !args_valid(svg@.len() as int, width, height) ==> r == Err::<RenderJob, RenderError>(
            RenderError::InvalidArguments,
        ),
        args_valid(svg@.len() as int, width, height) && !starts_with_gzip_magic(svg@)
            && !valid_utf8(svg@) ==> r is Err && r->Err_0 is ParseError,
        args_valid(svg@.len() as int, width, height) && !pixmap_fits(width, height) ==> r is Err,
        r matches Ok(job) ==> pixmap_size(job.pixmap) == (width, height) && pixmap_data(job.pixmap)
            == blank_canvas(width, height),
        r matches Err(e) ==> (e is InvalidArguments <==> !args_valid(svg@.len() as int, width, height)),
        r matches Err(e) && e is AllocationFailure ==> !pixmap_fits(width, height),
{
    match check_args(svg.len(), width, height) {
        Err(e) => Err(e),
        Ok(()) => {
            let parsed = match parse_svg(svg) {
                Ok(tree) => Ok(tree),
                Err(e) => Err(parse_error_text(&e)),
            };
            after_parse(parsed, width, height)
        },
    }
}

/// The render operation up to drawing, for one caller: clears the caller's
/// error channel, then checks, parses and allocates. On success the channel is
/// left empty and the document comes back with a zeroed canvas of the
/// requested size; on failure the reason comes back and its message is the
/// one the channel holds.
pub fn prepare_render(svg: &[u8], width: u32, height: u32, err: &mut ErrorChannel) -> (r: Result<
    RenderJob,
    RenderError,
>)
    ensures
        r matches Ok(job) ==> final(err)@ == None::<Seq<char>> && args_valid(
            svg@.len() as int,
            width,
            height,
        ) && pixmap_fits(width, height) && pixmap_size(job.pixmap) == (width, height)
            && pixmap_data(job.pixmap) == blank_canvas(width, height),
        r matches Err(e) ==> final(err)@ == Some(message_of(e)),
        !args_valid(svg@.len() as int, width, height) ==> r == Err::<RenderJob, RenderError>(
            RenderError::InvalidArguments,
        ),
        args_valid(svg@.len() as int, width, height) && !starts_with_gzip_magic(svg@)
            && !valid_utf8(svg@) ==> r is Err && r->Err_0 is ParseError,
        args_valid(svg@.len() as int, width, height) && !pixmap_fits(width, height) ==> r is Err,
        r matches Err(e) ==> (e is InvalidArguments <==> !args_valid(svg@.len() as int, width, height)),
        r matches Err(e) && e is AllocationFailure ==> !pixmap_fits(width, height),
        args_valid(svg@.len() as int, width, height) && pixmap_fits(width, height) && r is Err
            ==> r->Err_0 is ParseError,
{
    err.clear();
    let outcome = begin_render(svg, width, height);
    if let Err(e) = &outcome {
        set_err(err, e.message());
    }
    outcome
}

/// Hands a drawn canvas over as an image handle: its first
/// `4 * width * height` bytes, their count, and the canvas's width and height.
pub fn finish_render(pixmap: Pixmap) -> (r: RBImage)
    ensures
        r.wf(),
        !r.spec_is_empty(),
        (r.width, r.height) == pixmap_size(pixmap),
        r.len == r.width as int * r.height as int * 4,
        r.pixels@ == pixmap_data(pixmap).subrange(0, r.len as int),
{
    let width = pixmap_width(&pixmap);
    let height = pixmap_height(&pixmap);
    let mut pixels = take_pixels(pixmap);
    // The buffer's length fits in usize and is at least the product below.
    let _available: usize = pixels.len();
    proof {
        assert(0 < width as int * height as int <= width as int * height as int * 4)
            by (nonlinear_arith)
            requires
                width > 0,
                height > 0,
        ;
    }
    let len: usize = width as usize * height as usize * 4;
    pixels.truncate(len);
    RBImage { pixels, len, width, height }
}

} // verus!
