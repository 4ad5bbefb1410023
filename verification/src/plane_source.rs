//! Configuration of a plane-shaped geometry source.

use vstd::prelude::*;

verus! {

/// Configuration of a plane source: how finely the plane is subdivided
/// along its two axes.
pub struct PlaneSource {
    x_resolution: i32,
    y_resolution: i32,
}

impl PlaneSource {
    /// Number of subdivisions along the first axis.
    pub closed spec fn x_resolution(&self) -> i32 {
        self.x_resolution
    }

    /// Number of subdivisions along the second axis.
    pub closed spec fn y_resolution(&self) -> i32 {
        self.y_resolution
    }

    /// Initial configuration: a single quad, one subdivision per axis.
    pub fn new() -> (plane: Self)
        ensures
            plane.x_resolution() == 1,
            plane.y_resolution() == 1,
    {
        PlaneSource { x_resolution: 1, y_resolution: 1 }
    }

    /// Sets the number of subdivisions along the first axis.
    pub fn set_x_resolution(&mut self, r: i32)
        ensures
            final(self).x_resolution() == r,
            final(self).y_resolution() == old(self).y_resolution(),
    {
        self.x_resolution = r;
    }

    /// The number of subdivisions along the first axis.
    pub fn get_x_resolution(&self) -> (r: i32)
        ensures
            r == self.x_resolution(),
    {
        self.x_resolution
    }

    /// Sets the number of subdivisions along the second axis.
    pub fn set_y_resolution(&mut self, r: i32)
        ensures
            final(self).y_resolution() == r,
            final(self).x_resolution() == old(self).x_resolution(),
    {
        self.y_resolution = r;
    }

    /// The number of subdivisions along the second axis.
    pub fn get_y_resolution(&self) -> (r: i32)
        ensures
            r == self.y_resolution(),
    {
        self.y_resolution
    }
}

} // verus!
