//! Configuration of a filter that wraps lines in tubes.

use vstd::prelude::*;

verus! {

/// Configuration of a tube filter: the tube's facet count and whether its
/// ends are capped. The radii are native floating-point state and stay
/// with the binding layer.
pub struct TubeFilter {
    number_of_sides: i32,
    capping: bool,
}

impl TubeFilter {
    /// Number of facets around the tube.
    pub closed spec fn number_of_sides(&self) -> i32 {
        self.number_of_sides
    }

    /// Whether the tube's ends are closed.
    pub closed spec fn capping(&self) -> bool {
        self.capping
    }

    /// Initial configuration: three facets, open ends.
    pub fn new() -> (tube: Self)
        ensures
            tube.number_of_sides() == 3,
            tube.capping() == false,
    {
        TubeFilter { number_of_sides: 3, capping: false }
    }

    /// Sets the number of facets around the tube.
    pub fn set_number_of_sides(&mut self, sides: i32)
        ensures
            final(self).number_of_sides() == sides,
            final(self).capping() == old(self).capping(),
    {
        self.number_of_sides = sides;
    }

    /// The number of facets around the tube.
    pub fn get_number_of_sides(&self) -> (sides: i32)
        ensures
            sides == self.number_of_sides(),
    {
        self.number_of_sides
    }

    /// Enables or disables end capping.
    pub fn set_capping(&mut self, cap: bool)
        ensures
            final(self).capping() == cap,
            final(self).number_of_sides() == old(self).number_of_sides(),
    {
        self.capping = cap;
    }

    /// Whether end capping is enabled.
    pub fn get_capping(&self) -> (cap: bool)
        ensures
            cap == self.capping(),
    {
        self.capping
    }
}

} // verus!
