//! Configuration of a cone-shaped geometry source.

use vstd::prelude::*;

verus! {

/// Configuration of a cone source: the facet count and whether the base
/// is capped.
pub struct ConeSource {
    resolution: i32,
    capping: bool,
}

impl ConeSource {
    /// Number of facets used to represent the cone.
    pub closed spec fn resolution(&self) -> i32 {
        self.resolution
    }

    /// Whether the base is closed with a polygon.
    pub closed spec fn capping(&self) -> bool {
        self.capping
    }

    /// Initial configuration: six facets, capped base.
    pub fn new() -> (cone: Self)
        ensures
            cone.resolution() == 6,
            cone.capping() == true,
    {
        ConeSource { resolution: 6, capping: true }
    }

    /// Sets the number of facets used to represent the cone.
    pub fn set_resolution(&mut self, resolution: i32)
        ensures
            final(self).resolution() == resolution,
            final(self).capping() == old(self).capping(),
    {
        self.resolution = resolution;
    }

    /// The resolution (number of facets).
    pub fn get_resolution(&self) -> (resolution: i32)
        ensures
            resolution == self.resolution(),
    {
        self.resolution
    }

    /// Enables or disables base capping.
    pub fn set_capping(&mut self, cap: bool)
        ensures
            final(self).capping() == cap,
            final(self).resolution() == old(self).resolution(),
    {
        self.capping = cap;
    }

    /// Whether base capping is enabled.
    pub fn get_capping(&self) -> (cap: bool)
        ensures
            cap == self.capping(),
    {
        self.capping
    }
}

} // verus!
