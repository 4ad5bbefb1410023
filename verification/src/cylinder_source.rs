//! Configuration of a cylinder-shaped geometry source.

use vstd::prelude::*;

verus! {

/// Configuration of a cylinder source: the facet count and whether the
/// ends are capped.
pub struct CylinderSource {
    resolution: i32,
    capping: bool,
}

impl CylinderSource {
    /// Number of facets used to represent the cylinder.
    pub closed spec fn resolution(&self) -> i32 {
        self.resolution
    }

    /// Whether the ends are closed with polygons.
    pub closed spec fn capping(&self) -> bool {
        self.capping
    }

    /// Initial configuration: six facets, capped ends.
    pub fn new() -> (cylinder: Self)
        ensures
            cylinder.resolution() == 6,
            cylinder.capping() == true,
    {
        CylinderSource { resolution: 6, capping: true }
    }

    /// Sets the number of facets used to represent the cylinder.
    pub fn set_resolution(&mut self, resolution: i32)
        ensures
            final(self).resolution() == resolution,
            final(self).capping() == old(self).capping(),
    {
        self.resolution = resolution;
    }

    /// The resolution (number of facets).
    pub fn get_resolution(&self) -> (resolution: i32)
        ensures
            resolution == self.resolution(),
    {
        self.resolution
    }

    /// Enables or disables end capping.
    pub fn set_capping(&mut self, cap: bool)
        ensures
            final(self).capping() == cap,
            final(self).resolution() == old(self).resolution(),
    {
        self.capping = cap;
    }

    /// Whether end capping is enabled.
    pub fn get_capping(&self) -> (cap: bool)
        ensures
            cap == self.capping(),
    {
        self.capping
    }
}

} // verus!
