use vstd::prelude::*;
use crate::config::{RenderSettings, pixel_total};
use crate::scan::{scan_index, scan_pixel, lemma_scan_pixel_in_bounds, lemma_scan_index_in_range};

verus! {

/// An 8-bit RGB image held by the `image` crate.
#[verifier::external_body]
pub struct Picture {
    img: image::RgbImage,
}

/// What a picture holds: the color of each in-bounds pixel `(x, y)`.
pub uninterp spec fn picture_pixels(p: Picture) -> Map<(u32, u32), (u8, u8, u8)>;

/// The `(width, height)` that a picture was made with.
pub uninterp spec fn picture_dimensions(p: Picture) -> (u32, u32);

/// Whether `at` lies inside a `width` by `height` image.
pub open spec fn in_bounds(width: u32, height: u32, at: (u32, u32)) -> bool {
    at.0 < width && at.1 < height
}

/// Channel `c` (0 red, 1 green, 2 blue) of a color.
pub open spec fn channel(color: (u8, u8, u8), c: int) -> u8 {
    if c == 0 {
        color.0
    } else if c == 1 {
        color.1
    } else {
        color.2
    }
}

/// `bytes` lays out `pixels` row-major, three channels per pixel.
pub open spec fn packed_rows(
    bytes: Seq<u8>,
    pixels: Map<(u32, u32), (u8, u8, u8)>,
    width: u32,
    height: u32,
) -> bool {
    &&& bytes.len() == 3 * pixel_total(width as nat, height as nat)
    &&& forall|x: u32, y: u32, c: int|
        #![trigger pixels[(x, y)], bytes[3 * (y * width + x) + c]]
        x < width && y < height && 0 <= c < 3 ==> bytes[3 * (y * width + x) + c] == channel(
            pixels[(x, y)],
            c,
        )
}

impl Picture {
    /// Relies on `image::ImageBuffer::new`: an image of the given size whose
    /// channels are all zero. It panics only where `3 * width * height`
    /// overflows `usize`.
    #[verifier::external_body]
    fn blank(width: u32, height: u32) -> (r: Picture)
        requires
            3 * pixel_total(width as nat, height as nat) <= usize::MAX,
        ensures
            picture_dimensions(r) == (width, height),
            picture_pixels(r) == Map::new(
                |at: (u32, u32)| in_bounds(width, height, at),
                |at: (u32, u32)| (0u8, 0u8, 0u8),
            ),
    {
        Picture { img: image::RgbImage::new(width, height) }
    }

    /// Relies on `image::ImageBuffer::put_pixel`: overwrites the one pixel at
    /// `(x, y)`. It panics only where `(x, y)` is out of bounds.
    #[verifier::external_body]
    fn put(&mut self, x: u32, y: u32, color: (u8, u8, u8))
        requires
            in_bounds(picture_dimensions(*old(self)).0, picture_dimensions(*old(self)).1, (x, y)),
        ensures
            picture_dimensions(*final(self)) == picture_dimensions(*old(self)),
            picture_pixels(*final(self)) == picture_pixels(*old(self)).insert((x, y), color),
    {
        self.img.put_pixel(x, y, image::Rgb([color.0, color.1, color.2]));
    }

    /// Relies on `image::ImageBuffer::into_raw`: the image's buffer, which
    /// holds pixel `(x, y)` at `3 * (y * width + x)`, channel after channel.
    #[verifier::external_body]
    fn into_raw(self) -> (r: Vec<u8>)
        ensures
            packed_rows(
                r@,
                picture_pixels(self),
                picture_dimensions(self).0,
                picture_dimensions(self).1,
            ),
    {
        self.img.into_raw()
    }
}

/// The pixels of a picture after the first `done` steps of a row-major scan
/// wrote `colors`: the rest is still black.
pub open spec fn scanned_prefix(
    width: u32,
    height: u32,
    colors: Seq<(u8, u8, u8)>,
    done: nat,
) -> Map<(u32, u32), (u8, u8, u8)> {
    Map::new(
        |at: (u32, u32)| in_bounds(width, height, at),
        |at: (u32, u32)|
            if scan_index(at.0 as nat, at.1 as nat, width as nat) < done {
                colors[scan_index(at.0 as nat, at.1 as nat, width as nat) as int]
            } else {
                (0u8, 0u8, 0u8)
            },
    )
}

/// Hands each pixel color, given in row-major scan order, to an 8-bit RGB
/// image exactly once, and returns that image's bytes: three channels per
/// pixel, pixels row after row.
pub fn image_bytes(settings: &RenderSettings, colors: &Vec<(u8, u8, u8)>) -> (r: Vec<u8>)
    requires
        settings.wf(),
        colors@.len() == pixel_total(settings.image_width as nat, settings.image_height as nat),
    ensures
        r@.len() == 3 * colors@.len(),
        forall|i: int, c: int|
            #![trigger r@[3 * i + c], colors@[i]]
            0 <= i < colors@.len() && 0 <= c < 3 ==> r@[3 * i + c] == channel(colors@[i], c),
{
    let w = settings.image_width;
    let h = settings.image_height;
    let n = settings.pixel_count();
    let mut pic = Picture::blank(w, h);
    let mut i: usize = 0;
    proof {
        assert(picture_pixels(pic) =~= scanned_prefix(w, h, colors@, 0));
    }
    while i < n
        invariant
            settings.wf(),
            w == settings.image_width,
            h == settings.image_height,
            n == pixel_total(w as nat, h as nat),
            colors@.len() == n,
            i <= n,
            picture_dimensions(pic) == (w, h),
            picture_pixels(pic) == scanned_prefix(w, h, colors@, i as nat),
        decreases n - i,
    {
        let (x, y) = settings.pixel_at(i);
        let ghost before = picture_pixels(pic);
        pic.put(x, y, colors[i]);
        proof {
            lemma_scan_pixel_in_bounds(i as nat, w as nat, h as nat);
            let next = scanned_prefix(w, h, colors@, (i + 1) as nat);
            assert forall|at: (u32, u32)| #[trigger] next.contains_key(at) implies
                picture_pixels(pic)[at] == next[at] by {
                lemma_scan_index_in_range(at.0 as nat, at.1 as nat, w as nat, h as nat);
            }
            assert(in_bounds(w, h, (x, y)));
            assert(picture_pixels(pic).dom() =~= next.dom());
            assert(picture_pixels(pic) =~= next);
        }
        i = i + 1;
    }
    let bytes = pic.into_raw();
    proof {
        let pixels = scanned_prefix(w, h, colors@, n as nat);
        assert forall|k: int, c: int|
            #![trigger bytes@[3 * k + c], colors@[k]]
            0 <= k < colors@.len() && 0 <= c < 3 implies bytes@[3 * k + c] == channel(
            colors@[k],
            c,
        ) by {
            lemma_scan_pixel_in_bounds(k as nat, w as nat, h as nat);
            let x = scan_pixel(k as nat, w as nat).0 as u32;
            let y = scan_pixel(k as nat, w as nat).1 as u32;
            assert(pixels.contains_key((x, y)));
            assert(y * w + x == k);
            assert(pixels[(x, y)] == colors@[k]);
        }
    }
    bytes
}

} // verus!
