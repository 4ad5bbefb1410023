//! Configuration of a regular-polygon geometry source.

use vstd::prelude::*;

verus! {

/// Configuration of a regular-polygon source: the number of sides,
/// whether the filled polygon and its outline are produced, and the
/// precision requested for output points.
pub struct RegularPolygonSource {
    number_of_sides: i32,
    generate_polygon: bool,
    generate_polyline: bool,
    output_points_precision: i32,
}

impl RegularPolygonSource {
    /// Number of sides of the polygon.
    pub closed spec fn number_of_sides(&self) -> i32 {
        self.number_of_sides
    }

    /// Whether the filled polygon is produced.
    pub closed spec fn generate_polygon(&self) -> bool {
        self.generate_polygon
    }

    /// Whether the outline polyline is produced.
    pub closed spec fn generate_polyline(&self) -> bool {
        self.generate_polyline
    }

    /// The precision code requested for output points.
    pub closed spec fn output_points_precision(&self) -> i32 {
        self.output_points_precision
    }

    /// Initial configuration: a hexagon producing both the filled polygon
    /// and its outline, with single-precision output points (code `0`).
    pub fn new() -> (polygon: Self)
        ensures
            polygon.number_of_sides() == 6,
            polygon.generate_polygon() == true,
            polygon.generate_polyline() == true,
            polygon.output_points_precision() == 0,
    {
        RegularPolygonSource {
            number_of_sides: 6,
            generate_polygon: true,
            generate_polyline: true,
            output_points_precision: 0,
        }
    }

    /// Sets the number of sides.
    pub fn set_number_of_sides(&mut self, sides: i32)
        ensures
            final(self).number_of_sides() == sides,
            final(self).generate_polygon() == old(self).generate_polygon(),
            final(self).generate_polyline() == old(self).generate_polyline(),
            final(self).output_points_precision() == old(self).output_points_precision(),
    {
        self.number_of_sides = sides;
    }

    /// The number of sides.
    pub fn get_number_of_sides(&self) -> (sides: i32)
        ensures
            sides == self.number_of_sides(),
    {
        self.number_of_sides
    }

    /// Chooses whether the filled polygon is produced.
    pub fn set_generate_polygon(&mut self, generate: bool)
        ensures
            final(self).generate_polygon() == generate,
            final(self).number_of_sides() == old(self).number_of_sides(),
            final(self).generate_polyline() == old(self).generate_polyline(),
            final(self).output_points_precision() == old(self).output_points_precision(),
    {
        self.generate_polygon = generate;
    }

    /// Whether the filled polygon is produced.
    pub fn get_generate_polygon(&self) -> (generate: bool)
        ensures
            generate == self.generate_polygon(),
    {
        self.generate_polygon
    }

    /// Produces the filled polygon.
    pub fn generate_polygon_on(&mut self)
        ensures
            final(self).generate_polygon() == true,
            final(self).number_of_sides() == old(self).number_of_sides(),
            final(self).generate_polyline() == old(self).generate_polyline(),
            final(self).output_points_precision() == old(self).output_points_precision(),
    {
        self.set_generate_polygon(true);
    }

    /// Omits the filled polygon.
    pub fn generate_polygon_off(&mut self)
        ensures
            final(self).generate_polygon() == false,
            final(self).number_of_sides() == old(self).number_of_sides(),
            final(self).generate_polyline() == old(self).generate_polyline(),
            final(self).output_points_precision() == old(self).output_points_precision(),
    {
        self.set_generate_polygon(false);
    }

    /// Chooses whether the outline polyline is produced.
    pub fn set_generate_polyline(&mut self, generate: bool)
        ensures
            final(self).generate_polyline() == generate,
            final(self).number_of_sides() == old(self).number_of_sides(),
            final(self).generate_polygon() == old(self).generate_polygon(),
            final(self).output_points_precision() == old(self).output_points_precision(),
    {
        self.generate_polyline = generate;
    }

    /// Whether the outline polyline is produced.
    pub fn get_generate_polyline(&self) -> (generate: bool)
        ensures
            generate == self.generate_polyline(),
    {
        self.generate_polyline
    }

    /// Produces the outline polyline.
    pub fn generate_polyline_on(&mut self)
        ensures
            final(self).generate_polyline() == true,
            final(self).number_of_sides() == old(self).number_of_sides(),
            final(self).generate_polygon() == old(self).generate_polygon(),
            final(self).output_points_precision() == old(self).output_points_precision(),
    {
        self.set_generate_polyline(true);
    }

    /// Omits the outline polyline.
    pub fn generate_polyline_off(&mut self)
        ensures
            final(self).generate_polyline() == false,
            final(self).number_of_sides() == old(self).number_of_sides(),
            final(self).generate_polygon() == old(self).generate_polygon(),
            final(self).output_points_precision() == old(self).output_points_precision(),
    {
        self.set_generate_polyline(false);
    }

    /// Sets the precision code requested for output points.
    pub fn set_output_points_precision(&mut self, precision: i32)
        ensures
            final(self).output_points_precision() == precision,
            final(self).number_of_sides() == old(self).number_of_sides(),
            final(self).generate_polygon() == old(self).generate_polygon(),
            final(self).generate_polyline() == old(self).generate_polyline(),
    {
        self.output_points_precision = precision;
    }

    /// The precision code requested for output points.
    pub fn get_output_points_precision(&self) -> (precision: i32)
        ensures
            precision == self.output_points_precision(),
    {
        self.output_points_precision
    }
}

} // verus!
