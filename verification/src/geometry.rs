//! The shapes of a scene document.

use crate::error::{Key, Kind, LoadError, Part};
use crate::error::fault;
use crate::json::{require_real, require_text, required_real, required_text, same_text, Json};
use crate::outcome::viewed;
use crate::scalar::Real;
use vstd::prelude::*;

verus! {

/// A shape, in its own space.
#[derive(Clone, Debug, PartialEq, Eq)]
pub enum Geometry {
    /// A sphere about the origin.
    Sphere { radius: Real },
    /// A disk about the origin, with a hole of the inner radius.
    Disk { radius: Real, inner_radius: Real },
    /// The plane.
    Plane,
    /// A model of a mesh file; file and model are named as the document names
    /// them.
    Mesh { file: String, model: String },
}

/// A shape as contracts speak of it.
pub enum GeometryView {
    Sphere { radius: Real },
    Disk { radius: Real, inner_radius: Real },
    Plane,
    Mesh { file: Seq<char>, model: Seq<char> },
}

impl View for Geometry {
    type V = GeometryView;

    open spec fn view(&self) -> GeometryView {
        match *self {
            Geometry::Sphere { radius } => GeometryView::Sphere { radius },
            Geometry::Disk { radius, inner_radius } => GeometryView::Disk { radius, inner_radius },
            Geometry::Plane => GeometryView::Plane,
            Geometry::Mesh { file, model } => GeometryView::Mesh { file: file@, model: model@ },
        }
    }
}

impl GeometryView {
    /// Whether points can be drawn from the shape, as the geometry of an area
    /// light must allow: from a sphere and from a disk.
    pub open spec fn sampleable(self) -> bool {
        self is Sphere || self is Disk
    }
}

impl Geometry {
    /// Tells whether points can be drawn from the shape.
    pub fn is_sampleable(&self) -> (r: bool)
        ensures
            r == self@.sampleable(),
    {
        match self {
            Geometry::Sphere { .. } => true,
            Geometry::Disk { .. } => true,
            _ => false,
        }
    }
}

/// The sphere that a value states.
pub open spec fn sphere_of(elem: Json) -> Result<GeometryView, LoadError> {
    match required_real(elem, Part::Sphere, Key::Radius) {
        Err(e) => Err(e),
        Ok(radius) => Ok(GeometryView::Sphere { radius }),
    }
}

/// The disk that a value states.
pub open spec fn disk_of(elem: Json) -> Result<GeometryView, LoadError> {
    match required_real(elem, Part::Disk, Key::Radius) {
        Err(e) => Err(e),
        Ok(radius) => match required_real(elem, Part::Disk, Key::InnerRadius) {
            Err(e) => Err(e),
            Ok(inner_radius) => Ok(GeometryView::Disk { radius, inner_radius }),
        },
    }
}

/// The shape that a value states: what its `type` asks for.
pub open spec fn geometry_of(elem: Json) -> Result<GeometryView, LoadError> {
    match required_text(elem, Part::Geometry, Key::Type) {
        Err(e) => Err(e),
        Ok(ty) => if ty == "sphere"@ {
            sphere_of(elem)
        } else if ty == "disk"@ {
            disk_of(elem)
        } else if ty == "plane"@ {
            Ok(GeometryView::Plane)
        } else if ty == "mesh"@ {
            match required_text(elem, Part::Mesh, Key::File) {
                Err(e) => Err(e),
                Ok(file) => match required_text(elem, Part::Mesh, Key::Model) {
                    Err(e) => Err(e),
                    Ok(model) => Ok(GeometryView::Mesh { file, model }),
                },
            }
        } else {
            Err(fault(Part::Geometry, Key::Type, Kind::Unrecognized))
        },
    }
}

/// The shape that a value states for an area light: a sphere or a disk.
pub open spec fn sampleable_geometry_of(elem: Json) -> Result<GeometryView, LoadError> {
    match required_text(elem, Part::Geometry, Key::Type) {
        Err(e) => Err(e),
        Ok(ty) => if ty == "sphere"@ {
            sphere_of(elem)
        } else if ty == "disk"@ {
            disk_of(elem)
        } else {
            Err(fault(Part::Geometry, Key::Type, Kind::Unsampleable))
        },
    }
}

/// Reads a sphere.
fn load_sphere(elem: &Json) -> (r: Result<Geometry, LoadError>)
    ensures
        viewed(r) == sphere_of(*elem),
{
    let radius = require_real(elem, Part::Sphere, Key::Radius)?;
    Ok(Geometry::Sphere { radius })
}

/// Reads a disk.
fn load_disk(elem: &Json) -> (r: Result<Geometry, LoadError>)
    ensures
        viewed(r) == disk_of(*elem),
{
    let radius = require_real(elem, Part::Disk, Key::Radius)?;
    let inner_radius = require_real(elem, Part::Disk, Key::InnerRadius)?;
    Ok(Geometry::Disk { radius, inner_radius })
}

/// Reads a shape.
pub fn load_geometry(elem: &Json) -> (r: Result<Geometry, LoadError>)
    ensures
        viewed(r) == geometry_of(*elem),
{
    let ty = require_text(elem, Part::Geometry, Key::Type)?;
    if same_text(ty, "sphere") {
        load_sphere(elem)
    } else if same_text(ty, "disk") {
        load_disk(elem)
    } else if same_text(ty, "plane") {
        Ok(Geometry::Plane)
    } else if same_text(ty, "mesh") {
        let file = require_text(elem, Part::Mesh, Key::File)?;
        let model = require_text(elem, Part::Mesh, Key::Model)?;
        Ok(Geometry::Mesh { file: file.to_owned(), model: model.to_owned() })
    } else {
        Err(LoadError::at(Part::Geometry, Key::Type, Kind::Unrecognized))
    }
}

/// Reads the shape of an area light.
pub fn load_sampleable_geometry(elem: &Json) -> (r: Result<Geometry, LoadError>)
    ensures
        viewed(r) == sampleable_geometry_of(*elem),
        r matches Ok(geometry) ==> geometry@.sampleable(),
{
    let ty = require_text(elem, Part::Geometry, Key::Type)?;
    if same_text(ty, "sphere") {
        load_sphere(elem)
    } else if same_text(ty, "disk") {
        load_disk(elem)
    } else {
        Err(LoadError::at(Part::Geometry, Key::Type, Kind::Unsampleable))
    }
}

} // verus!
