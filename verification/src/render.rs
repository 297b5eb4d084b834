//! The arithmetic of the terminal layout: how many rows the drawing
//! occupies and at which column the text stands beside the image. The
//! cursor-control output itself is I/O and stays outside the library.

use vstd::prelude::*;
use crate::config::Config;
use crate::image::{spec_terminal_height, Image};

verus! {

/// Where everything goes: the image's height in rows, the total rows
/// the drawing reserves, and the column the text starts at.
pub struct RenderLayout {
    pub image_term_height: u32,
    pub total_height: u32,
    pub text_column: u32,
}

/// One more than `h`, saturating.
pub open spec fn spec_plus_one(h: u32) -> u32 {
    if h == u32::MAX {
        u32::MAX
    } else {
        (h + 1) as u32
    }
}

impl RenderLayout {
    /// Computes the layout: the image is as tall as its rendering at the
    /// configured width, the drawing reserves the taller of image-plus-
    /// caption and the text block, and the text stands right of the
    /// image with the configured offset and gap.
    pub fn compute(config: &Config, picture: &Image, text_height: u32) -> (r: RenderLayout)
        requires
            picture.wf(),
        ensures
            r.image_term_height == spec_terminal_height(
                picture.width,
                picture.height,
                config.image_width as u32,
            ),
            r.total_height == (if spec_plus_one(r.image_term_height) > text_height {
                spec_plus_one(r.image_term_height)
            } else {
                text_height
            }),
            r.text_column == config.image_width + config.offset_x + config.gap,
    {
        let image_term_height = picture.get_terminal_height(config.image_width as u32);
        let with_caption: u32 = if image_term_height == u32::MAX {
            u32::MAX
        } else {
            image_term_height + 1
        };
        let total_height: u32 = if with_caption > text_height {
            with_caption
        } else {
            text_height
        };
        let text_column: u32 = config.image_width as u32 + config.offset_x as u32
            + config.gap as u32;
        RenderLayout { image_term_height, total_height, text_column }
    }
}

} // verus!
