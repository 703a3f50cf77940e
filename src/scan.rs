use vstd::prelude::*;
use vstd::arithmetic::div_mod::{
    lemma_fundamental_div_mod,
    lemma_fundamental_div_mod_converse,
    lemma_multiply_divide_lt,
};
use crate::config::{RenderSettings, pixel_total, sample_total};

verus! {

/// The pixel visited at step `index` of a row-major scan of an image
/// `width` pixels wide: left to right, then top to bottom.
pub open spec fn scan_pixel(index: nat, width: nat) -> (nat, nat) {
    (index % width, index / width)
}

/// The step of a row-major scan at which pixel `(x, y)` is visited.
pub open spec fn scan_index(x: nat, y: nat, width: nat) -> nat {
    y * width + x
}

/// A scan step lands on an in-bounds pixel, and that pixel's own step is the
/// step itself.
pub proof fn lemma_scan_pixel_in_bounds(index: nat, width: nat, height: nat)
    requires
        width > 0,
        index < pixel_total(width, height),
    ensures
        scan_pixel(index, width).0 < width,
        scan_pixel(index, width).1 < height,
        scan_index(scan_pixel(index, width).0, scan_pixel(index, width).1, width) == index,
{
    lemma_fundamental_div_mod(index as int, width as int);
    lemma_multiply_divide_lt(index as int, width as int, height as int);
    assert(width * height == height * width) by (nonlinear_arith);
    assert((index / width) * width == width * (index / width)) by (nonlinear_arith);
}

/// An in-bounds pixel is visited at a step of the scan, and that step lands
/// on the pixel again.
pub proof fn lemma_scan_index_in_range(x: nat, y: nat, width: nat, height: nat)
    requires
        x < width,
        y < height,
    ensures
        scan_index(x, y, width) < pixel_total(width, height),
        scan_pixel(scan_index(x, y, width), width) == (x, y),
{
    assert(y * width + x < height * width) by (nonlinear_arith)
        requires
            x < width,
            y < height,
    ;
    assert(width * height == height * width) by (nonlinear_arith);
    lemma_fundamental_div_mod_converse(
        (y * width + x) as int,
        width as int,
        y as int,
        x as int,
    );
}

/// The row-major scan of a `width` by `height` image visits every pixel
/// exactly once: steps and pixels are in one-to-one correspondence.
pub proof fn lemma_scan_visits_each_pixel_once(width: nat, height: nat)
    requires
        width > 0,
    ensures
        forall|i: nat| #![trigger scan_pixel(i, width)]
            i < pixel_total(width, height) ==> scan_pixel(i, width).0 < width && scan_pixel(
                i,
                width,
            ).1 < height && scan_index(scan_pixel(i, width).0, scan_pixel(i, width).1, width)
                == i,
        forall|x: nat, y: nat| #![trigger scan_index(x, y, width)]
            x < width && y < height ==> scan_index(x, y, width) < pixel_total(width, height)
                && scan_pixel(scan_index(x, y, width), width) == (x, y),
        forall|i: nat, j: nat|
            #![trigger scan_pixel(i, width), scan_pixel(j, width)]
            i < pixel_total(width, height) && j < pixel_total(width, height) && scan_pixel(
                i,
                width,
            ) == scan_pixel(j, width) ==> i == j,
{
    assert forall|i: nat| #![trigger scan_pixel(i, width)] i < pixel_total(width, height) implies
        scan_pixel(i, width).0 < width && scan_pixel(i, width).1 < height && scan_index(
            scan_pixel(i, width).0,
            scan_pixel(i, width).1,
            width,
        ) == i by {
        lemma_scan_pixel_in_bounds(i, width, height);
    }
    assert forall|x: nat, y: nat| #![trigger scan_index(x, y, width)] x < width && y < height implies
        scan_index(x, y, width) < pixel_total(width, height) && scan_pixel(
            scan_index(x, y, width),
            width,
        ) == (x, y) by {
        lemma_scan_index_in_range(x, y, width, height);
    }
    assert forall|i: nat, j: nat|
        #![trigger scan_pixel(i, width), scan_pixel(j, width)]
        i < pixel_total(width, height) && j < pixel_total(width, height) && scan_pixel(i, width)
            == scan_pixel(j, width) implies i == j by {
        lemma_scan_pixel_in_bounds(i, width, height);
        lemma_scan_pixel_in_bounds(j, width, height);
    }
}

/// The number of progress notifications sent once sample `sample` of the
/// pixel at scan step `index` is traced: one per sample, in scan order.
pub open spec fn progress_count(index: nat, sample: nat, samples: nat) -> nat {
    index * samples + sample + 1
}

/// Progress notifications count up by one per traced sample, and the last
/// sample of the last pixel brings the count to the render's total.
pub proof fn lemma_progress_reaches_total(width: nat, height: nat, samples: nat, index: nat, sample: nat)
    requires
        samples > 0,
        index < pixel_total(width, height),
        sample < samples,
    ensures
        progress_count(index, sample, samples) <= sample_total(width, height, samples),
        sample + 1 < samples ==> progress_count(index, sample + 1, samples) == progress_count(
            index,
            sample,
            samples,
        ) + 1,
        sample + 1 == samples ==> progress_count(index + 1, 0, samples) == progress_count(
            index,
            sample,
            samples,
        ) + 1,
        progress_count((pixel_total(width, height) - 1) as nat, (samples - 1) as nat, samples)
            == sample_total(width, height, samples),
{
    let n = pixel_total(width, height);
    assert(index * samples + sample + 1 <= n * samples) by (nonlinear_arith)
        requires
            index < n,
            sample < samples,
    ;
    assert((index + 1) * samples == index * samples + samples) by (nonlinear_arith);
    assert(((n - 1) as nat) * samples + samples == n * samples) by (nonlinear_arith)
        requires
            n >= 1,
    ;
    assert(sample_total(width, height, samples) == n * samples);
}

impl RenderSettings {
    /// The progress count once sample `sample` of the pixel at scan step
    /// `index` is traced.
    pub fn progress_after(&self, index: usize, sample: usize) -> (r: usize)
        requires
            self.wf(),
            index < pixel_total(self.image_width as nat, self.image_height as nat),
            sample < self.samples_per_pixel,
        ensures
            r as nat == progress_count(index as nat, sample as nat, self.samples_per_pixel as nat),
            r <= sample_total(
                self.image_width as nat,
                self.image_height as nat,
                self.samples_per_pixel as nat,
            ),
    {
        proof {
            lemma_progress_reaches_total(
                self.image_width as nat,
                self.image_height as nat,
                self.samples_per_pixel as nat,
                index as nat,
                sample as nat,
            );
        }
        index * self.samples_per_pixel + sample + 1
    }

    /// The pixel `(x, y)` computed at step `index` of the render's scan.
    pub fn pixel_at(&self, index: usize) -> (r: (u32, u32))
        requires
            self.wf(),
            index < pixel_total(self.image_width as nat, self.image_height as nat),
        ensures
            (r.0 as nat, r.1 as nat) == scan_pixel(index as nat, self.image_width as nat),
            r.0 < self.image_width,
            r.1 < self.image_height,
    {
        proof {
            lemma_scan_pixel_in_bounds(
                index as nat,
                self.image_width as nat,
                self.image_height as nat,
            );
        }
        let w = self.image_width as usize;
        ((index % w) as u32, (index / w) as u32)
    }

    /// The step of the render's scan at which pixel `(x, y)` is computed.
    pub fn pixel_index(&self, x: u32, y: u32) -> (r: usize)
        requires
            self.wf(),
            x < self.image_width,
            y < self.image_height,
        ensures
            r as nat == scan_index(x as nat, y as nat, self.image_width as nat),
            (r as nat) < pixel_total(self.image_width as nat, self.image_height as nat),
    {
        proof {
            lemma_scan_index_in_range(
                x as nat,
                y as nat,
                self.image_width as nat,
                self.image_height as nat,
            );
            let w = self.image_width as nat;
            let h = self.image_height as nat;
            assert(w * h <= 3 * (w * h)) by (nonlinear_arith);
        }
        (y as usize) * (self.image_width as usize) + (x as usize)
    }
}

} // verus!
