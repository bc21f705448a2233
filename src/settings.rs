//! Renderer settings: the target resolution and the number of frames in flight.

use vstd::prelude::*;

verus! {

/// A width and a height in pixels.
#[derive(Clone, Copy, Debug, PartialEq, Eq, Structural)]
pub struct Resolution {
    pub width: u32,
    pub height: u32,
}

impl Resolution {
    pub fn new(width: u32, height: u32) -> (r: Resolution)
        ensures
            r.width == width,
            r.height == height,
    {
        Resolution { width, height }
    }
}

impl Default for Resolution {
    /// 1920 by 1080.
    fn default() -> (r: Resolution)
        ensures
            r.width == 1920,
            r.height == 1080,
    {
        Resolution { width: 1920, height: 1080 }
    }
}

/// Construction-time settings. `buffering` is the number of frames in flight;
/// it is fixed for the renderer's lifetime and must be at least one to draw.
#[derive(Clone, Copy, Debug, PartialEq, Eq, Structural)]
pub struct Settings {
    pub resolution: Resolution,
    pub buffering: u32,
}

impl Default for Settings {
    /// 1920 by 1080, with `buffering` unset (zero).
    fn default() -> (r: Settings)
        ensures
            r.resolution.width == 1920,
            r.resolution.height == 1080,
            r.buffering == 0,
    {
        Settings { resolution: Resolution::default(), buffering: 0 }
    }
}

impl Settings {
    /// The same settings with `resolution` replaced.
    pub fn resolution(self, resolution: Resolution) -> (r: Settings)
        ensures
            r.resolution == resolution,
            r.buffering == self.buffering,
    {
        Settings { resolution, ..self }
    }

    /// The same settings with `buffering` replaced.
    pub fn buffering(self, buffering: u32) -> (r: Settings)
        ensures
            r.resolution == self.resolution,
            r.buffering == buffering,
    {
        Settings { buffering, ..self }
    }
}

} // verus!
