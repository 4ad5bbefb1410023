//! Configuration of a disk-shaped geometry source.

use vstd::prelude::*;

verus! {

/// Configuration of a disk source: how finely the disk is divided along
/// its radius and around its circumference.
pub struct DiskSource {
    radial_resolution: i32,
    circumferential_resolution: i32,
}

impl DiskSource {
    /// Number of divisions along the radius.
    pub closed spec fn radial_resolution(&self) -> i32 {
        self.radial_resolution
    }

    /// Number of divisions around the circumference.
    pub closed spec fn circumferential_resolution(&self) -> i32 {
        self.circumferential_resolution
    }

    /// Initial configuration: one radial and six circumferential
    /// divisions.
    pub fn new() -> (disk: Self)
        ensures
            disk.radial_resolution() == 1,
            disk.circumferential_resolution() == 6,
    {
        DiskSource { radial_resolution: 1, circumferential_resolution: 6 }
    }

    /// Sets the number of divisions along the radius.
    pub fn set_radial_resolution(&mut self, r: i32)
        ensures
            final(self).radial_resolution() == r,
            final(self).circumferential_resolution() == old(self).circumferential_resolution(),
    {
        self.radial_resolution = r;
    }

    /// The number of divisions along the radius.
    pub fn get_radial_resolution(&self) -> (r: i32)
        ensures
            r == self.radial_resolution(),
    {
        self.radial_resolution
    }

    /// Sets the number of divisions around the circumference.
    pub fn set_circumferential_resolution(&mut self, r: i32)
        ensures
            final(self).circumferential_resolution() == r,
            final(self).radial_resolution() == old(self).radial_resolution(),
    {
        self.circumferential_resolution = r;
    }

    /// The number of divisions around the circumference.
    pub fn get_circumferential_resolution(&self) -> (r: i32)
        ensures
            r == self.circumferential_resolution(),
    {
        self.circumferential_resolution
    }
}

} // verus!
