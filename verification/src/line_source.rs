//! Configuration of a line-shaped geometry source.

use vstd::prelude::*;

verus! {

/// Configuration of a line source: how many segments the line is divided
/// into. The end points are native floating-point state and stay with
/// the binding layer.
pub struct LineSource {
    resolution: i32,
}

impl LineSource {
    /// Number of segments the line is divided into.
    pub closed spec fn resolution(&self) -> i32 {
        self.resolution
    }

    /// Initial configuration: six segments.
    pub fn new() -> (line: Self)
        ensures
            line.resolution() == 6,
    {
        LineSource { resolution: 6 }
    }

    /// Sets the number of segments.
    pub fn set_resolution(&mut self, resolution: i32)
        ensures
            final(self).resolution() == resolution,
    {
        self.resolution = resolution;
    }

    /// The number of segments.
    pub fn get_resolution(&self) -> (resolution: i32)
        ensures
            resolution == self.resolution(),
    {
        self.resolution
    }
}

} // verus!
