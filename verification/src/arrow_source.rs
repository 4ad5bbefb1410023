//! Configuration of an arrow-shaped geometry source.
//!
//! The arrow's tessellation is native work; what the library states
//! exactly is the configuration the source was given: the tip and shaft
//! resolutions, whether the arrow is inverted, and where its origin sits.

use vstd::prelude::*;

verus! {

/// Configuration of an arrow source.
pub struct ArrowSource {
    tip_resolution: i32,
    shaft_resolution: i32,
    invert: bool,
    origin_at_center: bool,
}

impl ArrowSource {
    /// Number of facets of the arrow's tip.
    pub closed spec fn tip_resolution(&self) -> i32 {
        self.tip_resolution
    }

    /// Number of facets of the arrow's shaft.
    pub closed spec fn shaft_resolution(&self) -> i32 {
        self.shaft_resolution
    }

    /// Whether the arrow points from tip to base instead of base to tip.
    pub closed spec fn invert(&self) -> bool {
        self.invert
    }

    /// Whether the arrow's origin sits at its center rather than at its
    /// default position.
    pub closed spec fn origin_at_center(&self) -> bool {
        self.origin_at_center
    }

    /// Initial configuration: six facets for tip and shaft, not inverted,
    /// origin at the default position.
    pub fn new() -> (arrow: Self)
        ensures
            arrow.tip_resolution() == 6,
            arrow.shaft_resolution() == 6,
            arrow.invert() == false,
            arrow.origin_at_center() == false,
    {
        ArrowSource {
            tip_resolution: 6,
            shaft_resolution: 6,
            invert: false,
            origin_at_center: false,
        }
    }

    /// Puts the arrow's origin at its default position.
    pub fn set_arrow_origin_to_default(&mut self)
        ensures
            final(self).origin_at_center() == false,
            final(self).tip_resolution() == old(self).tip_resolution(),
            final(self).shaft_resolution() == old(self).shaft_resolution(),
            final(self).invert() == old(self).invert(),
    {
        self.origin_at_center = false;
    }

    /// Puts the arrow's origin at its center.
    pub fn set_arrow_origin_to_center(&mut self)
        ensures
            final(self).origin_at_center() == true,
            final(self).tip_resolution() == old(self).tip_resolution(),
            final(self).shaft_resolution() == old(self).shaft_resolution(),
            final(self).invert() == old(self).invert(),
    {
        self.origin_at_center = true;
    }

    /// The arrow's origin choice, by name.
    pub fn get_arrow_origin_as_string(&self) -> (origin: String)
        ensures
            origin@ == (if self.origin_at_center() {
                "Center"@
            } else {
                "Default"@
            }),
    {
        if self.origin_at_center {
            "Center".to_owned()
        } else {
            "Default".to_owned()
        }
    }

    /// Sets the number of facets of the tip.
    pub fn set_tip_resolution(&mut self, res: i32)
        ensures
            final(self).tip_resolution() == res,
            final(self).shaft_resolution() == old(self).shaft_resolution(),
            final(self).invert() == old(self).invert(),
            final(self).origin_at_center() == old(self).origin_at_center(),
    {
        self.tip_resolution = res;
    }

    /// The number of facets of the tip.
    pub fn get_tip_resolution(&self) -> (res: i32)
        ensures
            res == self.tip_resolution(),
    {
        self.tip_resolution
    }

    /// Sets the number of facets of the shaft.
    pub fn set_shaft_resolution(&mut self, res: i32)
        ensures
            final(self).shaft_resolution() == res,
            final(self).tip_resolution() == old(self).tip_resolution(),
            final(self).invert() == old(self).invert(),
            final(self).origin_at_center() == old(self).origin_at_center(),
    {
        self.shaft_resolution = res;
    }

    /// The number of facets of the shaft.
    pub fn get_shaft_resolution(&self) -> (res: i32)
        ensures
            res == self.shaft_resolution(),
    {
        self.shaft_resolution
    }

    /// Turns inversion on or off.
    pub fn set_invert(&mut self, invert: bool)
        ensures
            final(self).invert() == invert,
            final(self).tip_resolution() == old(self).tip_resolution(),
            final(self).shaft_resolution() == old(self).shaft_resolution(),
            final(self).origin_at_center() == old(self).origin_at_center(),
    {
        self.invert = invert;
    }

    /// Turns inversion on.
    pub fn invert_on(&mut self)
        ensures
            final(self).invert() == true,
            final(self).tip_resolution() == old(self).tip_resolution(),
            final(self).shaft_resolution() == old(self).shaft_resolution(),
            final(self).origin_at_center() == old(self).origin_at_center(),
    {
        self.set_invert(true);
    }

    /// Turns inversion off.
    pub fn invert_off(&mut self)
        ensures
            final(self).invert() == false,
            final(self).tip_resolution() == old(self).tip_resolution(),
            final(self).shaft_resolution() == old(self).shaft_resolution(),
            final(self).origin_at_center() == old(self).origin_at_center(),
    {
        self.set_invert(false);
    }

    /// Whether the arrow is inverted.
    pub fn get_invert(&self) -> (invert: bool)
        ensures
            invert == self.invert(),
    {
        self.invert
    }
}

} // verus!
