//! Rendering property state of an actor: representation, edge visibility
//! and shading interpolation.
//!
//! The native renderer encodes the representation and interpolation
//! choices as small integer codes; the typed enumerations here carry the
//! same choices, with exact conversions in both directions.

use vstd::prelude::*;

verus! {

/// How geometry is rasterized: as points, as a wireframe, or as filled
/// surfaces.
#[derive(Clone, Copy, Debug, PartialEq, Eq, Structural)]
pub enum RepresentationType {
    Points,
    Wireframe,
    Surface,
}

impl RepresentationType {
    /// The integer code the native renderer uses for this choice.
    pub open spec fn code_spec(self) -> i32 {
        match self {
            RepresentationType::Points => 0,
            RepresentationType::Wireframe => 1,
            RepresentationType::Surface => 2,
        }
    }

    /// The integer code the native renderer uses for this choice.
    pub fn code(self) -> (code: i32)
        ensures
            code == self.code_spec(),
    {
        match self {
            RepresentationType::Points => 0,
            RepresentationType::Wireframe => 1,
            RepresentationType::Surface => 2,
        }
    }

    /// The choice a native integer code names; an unknown code reads as
    /// the surface representation.
    pub open spec fn from_code_spec(code: i32) -> RepresentationType {
        if code == 0 {
            RepresentationType::Points
        } else if code == 1 {
            RepresentationType::Wireframe
        } else {
            RepresentationType::Surface
        }
    }

    /// The choice a native integer code names; an unknown code reads as
    /// the surface representation.
    pub fn from_code(code: i32) -> (representation: RepresentationType)
        ensures
            representation == RepresentationType::from_code_spec(code),
    {
        if code == 0 {
            RepresentationType::Points
        } else if code == 1 {
            RepresentationType::Wireframe
        } else {
            RepresentationType::Surface
        }
    }
}

/// How shading is interpolated across a surface.
#[derive(Clone, Copy, Debug, PartialEq, Eq, Structural)]
pub enum InterpolationType {
    Flat,
    Gouraud,
    Phong,
}

impl InterpolationType {
    /// The integer code the native renderer uses for this choice.
    pub open spec fn code_spec(self) -> i32 {
        match self {
            InterpolationType::Flat => 0,
            InterpolationType::Gouraud => 1,
            InterpolationType::Phong => 2,
        }
    }

    /// The integer code the native renderer uses for this choice.
    pub fn code(self) -> (code: i32)
        ensures
            code == self.code_spec(),
    {
        match self {
            InterpolationType::Flat => 0,
            InterpolationType::Gouraud => 1,
            InterpolationType::Phong => 2,
        }
    }

    /// The choice a native integer code names; an unknown code reads as
    /// Gouraud shading.
    pub open spec fn from_code_spec(code: i32) -> InterpolationType {
        if code == 0 {
            InterpolationType::Flat
        } else if code == 1 {
            InterpolationType::Gouraud
        } else if code == 2 {
            InterpolationType::Phong
        } else {
            InterpolationType::Gouraud
        }
    }

    /// The choice a native integer code names; an unknown code reads as
    /// Gouraud shading.
    pub fn from_code(code: i32) -> (interpolation: InterpolationType)
        ensures
            interpolation == InterpolationType::from_code_spec(code),
    {
        if code == 0 {
            InterpolationType::Flat
        } else if code == 1 {
            InterpolationType::Gouraud
        } else if code == 2 {
            InterpolationType::Phong
        } else {
            InterpolationType::Gouraud
        }
    }
}

/// The configurable rendering properties of an actor that this library
/// states exactly: representation, edge visibility, and interpolation.
pub struct Property {
    representation: RepresentationType,
    edge_visibility: bool,
    interpolation: InterpolationType,
}

impl Property {
    /// The representation choice.
    pub closed spec fn representation(&self) -> RepresentationType {
        self.representation
    }

    /// Whether edges are drawn.
    pub closed spec fn edge_visibility(&self) -> bool {
        self.edge_visibility
    }

    /// The interpolation choice.
    pub closed spec fn interpolation(&self) -> InterpolationType {
        self.interpolation
    }

    /// Initial configuration: filled surfaces, no edges, Gouraud shading.
    pub fn new() -> (property: Self)
        ensures
            property.representation() == RepresentationType::Surface,
            property.edge_visibility() == false,
            property.interpolation() == InterpolationType::Gouraud,
    {
        Property {
            representation: RepresentationType::Surface,
            edge_visibility: false,
            interpolation: InterpolationType::Gouraud,
        }
    }

    /// Chooses the representation (points, wireframe, or surface).
    pub fn set_representation(&mut self, representation: RepresentationType)
        ensures
            final(self).representation() == representation,
            final(self).edge_visibility() == old(self).edge_visibility(),
            final(self).interpolation() == old(self).interpolation(),
    {
        self.representation = representation;
    }

    /// The representation choice.
    pub fn get_representation(&mut self) -> (representation: RepresentationType)
        ensures
            *final(self) == *old(self),
            representation == old(self).representation(),
    {
        self.representation
    }

    /// Shows or hides edges; edges matter most for the surface
    /// representation.
    pub fn set_edge_visibility(&mut self, visible: bool)
        ensures
            final(self).edge_visibility() == visible,
            final(self).representation() == old(self).representation(),
            final(self).interpolation() == old(self).interpolation(),
    {
        self.edge_visibility = visible;
    }

    /// Whether edges are drawn.
    pub fn get_edge_visibility(&mut self) -> (visible: bool)
        ensures
            *final(self) == *old(self),
            visible == old(self).edge_visibility(),
    {
        self.edge_visibility
    }

    /// Chooses the shading interpolation (flat, Gouraud, or Phong).
    pub fn set_interpolation(&mut self, interpolation: InterpolationType)
        ensures
            final(self).interpolation() == interpolation,
            final(self).representation() == old(self).representation(),
            final(self).edge_visibility() == old(self).edge_visibility(),
    {
        self.interpolation = interpolation;
    }

    /// The interpolation choice.
    pub fn get_interpolation(&mut self) -> (interpolation: InterpolationType)
        ensures
            *final(self) == *old(self),
            interpolation == old(self).interpolation(),
    {
        self.interpolation
    }
}

} // verus!
