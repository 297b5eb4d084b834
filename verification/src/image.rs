//! The cached cover image: choosing the best rendition, naming the
//! cache file after the URL's digest, and sizing the terminal rendering.
//! Downloading and decoding the file is I/O and stays outside the
//! library; an `Image` here models the cached file by its path and its
//! pixel dimensions.

use vstd::prelude::*;
use vstd::string::StringExecFns;
use crate::api::Image as SpotifyImage;
use crate::pkce::sha256_of;
use crate::text::{bytes_to_hex, hex_of};

verus! {

/// A downloaded cover image in the cache: where it lies and how large
/// it is in pixels.
pub struct Image {
    pub path: String,
    pub width: u32,
    pub height: u32,
}

/// The pixel area of a listed rendition.
pub open spec fn spec_area(img: SpotifyImage) -> int {
    img.width * img.height
}

fn area_of(img: &SpotifyImage) -> (r: u64)
    ensures
        r == spec_area(*img),
{
    let w: u64 = img.width as u64;
    let h: u64 = img.height as u64;
    proof {
        assert(w * h <= 0xffffffffu64 * 0xffffffffu64) by (nonlinear_arith)
            requires
                w <= 0xffffffffu64,
                h <= 0xffffffffu64,
        ;
    }
    w * h
}

/// The number of terminal rows an image occupies at `width_columns`
/// columns: rows are about twice as tall as columns, so this is the
/// scaled height halved, rounded up, saturated at the largest
/// representable value.
pub open spec fn spec_terminal_height(width: u32, height: u32, width_columns: u32) -> u32 {
    let v = (width_columns * height + 2 * width - 1) / (2 * width);
    if v > u32::MAX {
        u32::MAX
    } else {
        v as u32
    }
}

impl Image {
    /// An image is well formed when its dimensions are those of a real
    /// decoded picture: at least one pixel each way.
    pub open spec fn wf(self) -> bool {
        self.width >= 1 && self.height >= 1
    }

    /// The URL of the largest rendition on offer: none when the list is
    /// empty, otherwise the last one of maximal pixel area.
    pub fn get_best_image_url(images: &[SpotifyImage]) -> (r: Option<String>)
        ensures
            match r {
                None => images@.len() == 0,
                Some(u) => exists|i: int|
                    0 <= i < images@.len() && u@ == images@[i].url@ && (forall|j: int|
                        0 <= j < images@.len() ==> spec_area(#[trigger] images@[j]) <= spec_area(
                            images@[i],
                        )) && (forall|j: int|
                        i < j < images@.len() ==> spec_area(#[trigger] images@[j]) < spec_area(
                            images@[i],
                        )),
            },
    {
        if images.len() == 0 {
            return None;
        }
        let mut best: usize = 0;
        let mut best_area: u64 = area_of(&images[0]);
        let mut i: usize = 1;
        while i < images.len()
            invariant
                images@.len() >= 1,
                best < i <= images@.len(),
                best_area == spec_area(images@[best as int]),
                forall|j: int|
                    0 <= j < i ==> spec_area(#[trigger] images@[j]) <= spec_area(
                        images@[best as int],
                    ),
                forall|j: int|
                    best < j < i ==> spec_area(#[trigger] images@[j]) < spec_area(
                        images@[best as int],
                    ),
            decreases images@.len() - i,
        {
            let area: u64 = area_of(&images[i]);
            if area >= best_area {
                best = i;
                best_area = area;
            }
            i = i + 1;
        }
        Some(images[best].url.clone())
    }

    /// The cache file name of a URL: the lowercase hexadecimal SHA-256
    /// digest of its UTF-8 bytes, with a `.jpg` suffix.
    pub fn hash_url(url: &str) -> (r: String)
        ensures
            r@ == hex_of(sha256_of(vstd::utf8::encode_utf8(url@))) + ".jpg"@,
    {
        let digest = crate::pkce::sha256_bytes(url.as_bytes());
        let mut name = bytes_to_hex(digest.as_slice());
        name.append(".jpg");
        name
    }

    /// How many terminal rows the image takes when drawn
    /// `width_columns` columns wide.
    pub fn get_terminal_height(&self, width_columns: u32) -> (r: u32)
        requires
            self.wf(),
        ensures
            r == spec_terminal_height(self.width, self.height, width_columns),
    {
        let wc: u128 = width_columns as u128;
        let h: u128 = self.height as u128;
        proof {
            assert(wc * h <= 0xffffffffu128 * 0xffffffffu128) by (nonlinear_arith)
                requires
                    wc <= 0xffffffffu128,
                    h <= 0xffffffffu128,
            ;
        }
        let num: u128 = wc * h;
        let den: u128 = 2 * self.width as u128;
        let v: u128 = (num + (den - 1)) / den;
        if v > u32::MAX as u128 {
            u32::MAX
        } else {
            v as u32
        }
    }
}

} // verus!
