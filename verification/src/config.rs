//! Settings of the notebook front end.
use vstd::prelude::*;

verus! {

/// What the front end may be told to do beside showing values.
pub struct ValkyrieConfig {
    running_time: bool,
    image_max_pixel: usize,
}

/// The pixel budget of an image unless configured otherwise: 1024 by 768.
pub const DEFAULT_IMAGE_MAX_PIXEL: usize = 786432;

impl ValkyrieConfig {
    /// Whether the elapsed time is reported after each cell.
    pub closed spec fn shows_running_time(&self) -> bool {
        self.running_time
    }

    /// The largest number of pixels an image may have to be shown.
    pub closed spec fn pixel_limit(&self) -> usize {
        self.image_max_pixel
    }

    pub fn running_time(&self) -> (shown: bool)
        ensures
            shown == self.shows_running_time(),
    {
        self.running_time
    }

    pub fn image_max_pixel(&self) -> (limit: usize)
        ensures
            limit == self.pixel_limit(),
    {
        self.image_max_pixel
    }
}

impl Default for ValkyrieConfig {
    fn default() -> (config: Self)
        ensures
            !config.shows_running_time(),
            config.pixel_limit() == DEFAULT_IMAGE_MAX_PIXEL,
    {
        ValkyrieConfig { running_time: false, image_max_pixel: DEFAULT_IMAGE_MAX_PIXEL }
    }
}

} // verus!
