//! Boundary core for turning SVG documents into RGBA rasters: a per-caller
//! error channel, an ownership-carrying image handle, and the decisions of the
//! render operation (validation, parsing, allocation, packaging).

mod error_channel;
mod image;
mod outside;
mod render;

pub use error_channel::{
    buffer_after_copy, copied_len, lemma_copy_into_one_byte, set_err, ErrorChannel,
};
pub use image::{free_image, lemma_populated_handle_size, RBImage};
pub use outside::{pixmap_data, pixmap_size, starts_with_gzip_magic};
pub use render::{
    after_parse, allocate, args_valid, begin_render, blank_canvas, check_args, finish_render,
    is_parse_error_message, lemma_fits_where_pointers_are_wide, message_of, pixmap_fits, prepare_render, RenderError, RenderJob,
};
