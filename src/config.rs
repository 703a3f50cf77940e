use vstd::prelude::*;

verus! {

/// Why a render configuration was refused before any pixel is computed.
#[derive(Debug, Clone, Copy, PartialEq, Eq, Structural)]
pub enum ConfigError {
    ZeroWidth,
    ZeroHeight,
    ZeroSamples,
    /// The image, its byte buffer or the number of traced samples does not fit
    /// the machine's integers.
    TooLarge,
}

/// The integer part of a render configuration, checked once before rendering.
#[derive(Debug, Clone, Copy, PartialEq, Eq, Structural)]
pub struct RenderSettings {
    pub image_width: u32,
    pub image_height: u32,
    pub samples_per_pixel: usize,
    pub max_depth: usize,
}

/// Number of pixels of a `width` by `height` image.
pub open spec fn pixel_total(width: nat, height: nat) -> nat {
    width * height
}

/// Number of samples traced (and progress notifications sent) over a render.
pub open spec fn sample_total(width: nat, height: nat, samples: nat) -> nat {
    width * height * samples
}

/// Whether a configuration fits the machine: pixels, RGB bytes and samples
/// all fit in `usize`, and each side fits in `u32`.
pub open spec fn fits(width: nat, height: nat, samples: nat) -> bool {
    &&& width <= u32::MAX
    &&& height <= u32::MAX
    &&& 3 * pixel_total(width, height) <= usize::MAX
    &&& sample_total(width, height, samples) <= usize::MAX
}

impl RenderSettings {
    /// Well-formed settings: positive sizes and counts that fit the machine.
    pub open spec fn wf(self) -> bool {
        &&& self.image_width > 0
        &&& self.image_height > 0
        &&& self.samples_per_pixel > 0
        &&& fits(self.image_width as nat, self.image_height as nat, self.samples_per_pixel as nat)
    }

    /// Checks a configuration. The first failing check, in the order width,
    /// height, samples, size, gives the error.
    pub fn new(image_width: usize, image_height: usize, samples_per_pixel: usize, max_depth: usize)
        -> (r: Result<RenderSettings, ConfigError>)
        ensures
            image_width == 0 ==> r == Err::<RenderSettings, ConfigError>(ConfigError::ZeroWidth),
            image_width > 0 && image_height == 0 ==> r == Err::<RenderSettings, ConfigError>(
                ConfigError::ZeroHeight,
            ),
            image_width > 0 && image_height > 0 && samples_per_pixel == 0 ==> r == Err::<
                RenderSettings,
                ConfigError,
            >(ConfigError::ZeroSamples),
            image_width > 0 && image_height > 0 && samples_per_pixel > 0 ==> (r
                == Err::<RenderSettings, ConfigError>(ConfigError::TooLarge) <==> !fits(
                image_width as nat,
                image_height as nat,
                samples_per_pixel as nat,
            )),
            r is Ok ==> r->Ok_0.wf() && r->Ok_0.image_width == image_width && r->Ok_0.image_height
                == image_height && r->Ok_0.samples_per_pixel == samples_per_pixel
                && r->Ok_0.max_depth == max_depth,
            r is Ok <==> (image_width > 0 && image_height > 0 && samples_per_pixel > 0 && fits(
                image_width as nat,
                image_height as nat,
                samples_per_pixel as nat,
            )),
    {
        if image_width == 0 {
            return Err(ConfigError::ZeroWidth);
        }
        if image_height == 0 {
            return Err(ConfigError::ZeroHeight);
        }
        if samples_per_pixel == 0 {
            return Err(ConfigError::ZeroSamples);
        }
        if image_width > u32::MAX as usize || image_height > u32::MAX as usize {
            return Err(ConfigError::TooLarge);
        }
        let pixels = match image_width.checked_mul(image_height) {
            Some(p) => p,
            None => return Err(ConfigError::TooLarge),
        };
        let bytes = pixels.checked_mul(3);
        let samples = pixels.checked_mul(samples_per_pixel);
        if bytes.is_none() || samples.is_none() {
            return Err(ConfigError::TooLarge);
        }
        proof {
            assert(pixel_total(image_width as nat, image_height as nat) == pixels as nat);
        }
        Ok(RenderSettings {
            image_width: image_width as u32,
            image_height: image_height as u32,
            samples_per_pixel,
            max_depth,
        })
    }

    /// Number of pixels of the image.
    pub fn pixel_count(&self) -> (r: usize)
        requires
            self.wf(),
        ensures
            r == pixel_total(self.image_width as nat, self.image_height as nat),
    {
        proof {
            let w = self.image_width as nat;
            let h = self.image_height as nat;
            assert(w * h <= 3 * (w * h)) by (nonlinear_arith);
        }
        (self.image_width as usize) * (self.image_height as usize)
    }

    /// Number of samples traced over the whole render, one progress
    /// notification each.
    pub fn total_samples(&self) -> (r: usize)
        requires
            self.wf(),
        ensures
            r == sample_total(
                self.image_width as nat,
                self.image_height as nat,
                self.samples_per_pixel as nat,
            ),
    {
        let pixels = self.pixel_count();
        pixels * self.samples_per_pixel
    }
}

} // verus!
