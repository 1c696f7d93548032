//! The scene: the objects and the camera configuration to render.
//!
//! A scene document has five required sections: a film, a camera, an
//! integrator, a list of materials and a list of objects and lights. The root
//! object of the document holds one of each, under the keys `film`, `camera`,
//! `integrator`, `materials` and `objects`.

use crate::error::{Key, Kind, LoadError, Part};
use crate::error::fault;
use crate::film::{camera_of, film_of, load_camera, load_film};
use crate::film::{Camera, CameraView, FrameInfo, RenderTarget};
use crate::instance::{all_sound, instance_views, load_objects, objects_of};
use crate::instance::{Instance, InstanceView};
use crate::integrator::{integrator_of, load_integrator, Integrator};
use crate::json::{document, parse, require, required, Json};
use crate::material::{distinct_names, has_distinct_names, load_materials, material_views};
use crate::material::materials_of;
use crate::material::{NamedMaterial, NamedMaterialView};
use crate::scalar::{Real, TWO_BITS, ZERO_BITS};
use vstd::prelude::*;

verus! {

/// The greatest number of instances in a leaf of the hierarchy of a scene.
pub const MAX_LEAF_SIZE: usize = 4;

/// What the bounding volume hierarchy of a scene is built over: the
/// instances, the greatest number of them in a leaf, and the window of time
/// over which the bounds of moving instances must hold. There is at least
/// one instance.
#[derive(Clone, Debug, PartialEq, Eq)]
pub struct BVH {
    pub max_leaf_size: usize,
    pub instances: Vec<Instance>,
    pub start_time: Real,
    pub end_time: Real,
}

/// The base of a hierarchy as contracts speak of it.
pub struct BVHView {
    pub max_leaf_size: usize,
    pub instances: Seq<InstanceView>,
    pub start_time: Real,
    pub end_time: Real,
}

impl View for BVH {
    type V = BVHView;

    open spec fn view(&self) -> BVHView {
        BVHView {
            max_leaf_size: self.max_leaf_size,
            instances: instance_views(self.instances@),
            start_time: self.start_time,
            end_time: self.end_time,
        }
    }
}

impl BVH {
    /// Takes the instances that a hierarchy is to be built over.
    pub fn new(
        max_leaf_size: usize,
        instances: Vec<Instance>,
        start_time: Real,
        end_time: Real,
    ) -> (r: BVH)
        requires
            instances@.len() > 0,
        ensures
            r@ == (BVHView {
                max_leaf_size,
                instances: instance_views(instances@),
                start_time,
                end_time,
            }),
            r@.instances.len() > 0,
    {
        BVH { max_leaf_size, instances, start_time, end_time }
    }
}

/// The scene containing the objects and camera configuration to render.
#[derive(Clone, Debug, PartialEq, Eq)]
pub struct Scene {
    pub camera: Camera,
    pub bvh: BVH,
    pub integrator: Integrator,
    /// The materials, in the order of the document. The instances tell their
    /// materials by their places in this list.
    pub materials: Vec<NamedMaterial>,
}

/// A scene as contracts speak of it.
pub struct SceneView {
    pub camera: CameraView,
    pub bvh: BVHView,
    pub integrator: Integrator,
    pub materials: Seq<NamedMaterialView>,
}

impl View for Scene {
    type V = SceneView;

    open spec fn view(&self) -> SceneView {
        SceneView {
            camera: self.camera@,
            bvh: self.bvh@,
            integrator: self.integrator,
            materials: material_views(self.materials@),
        }
    }
}

impl SceneView {
    /// Whether the scene can be rendered: the times of the keyframes of the
    /// camera and of every instance increase, there is at least one
    /// instance, no two materials have the same name, every instance that
    /// has a material refers to one of the list, and every area light has a
    /// shape that can be sampled.
    pub open spec fn well_formed(self) -> bool {
        &&& crate::transform::well_formed(self.camera.transform)
        &&& self.bvh.instances.len() > 0
        &&& distinct_names(self.materials)
        &&& all_sound(self.bvh.instances, self.materials.len())
    }
}

/// What a document states: the scene, the render target, the number of
/// samples for each pixel, and the frames. The document is an object; its
/// sections are read in the order `film`, `camera`, `integrator`,
/// `materials`, `objects`, each looked up just before it is read, and the
/// objects must state at least one instance. The hierarchy is over all
/// instances, with at most four in a leaf and for the times from zero to two.
pub open spec fn scene_of_document(data: Json) -> Result<
    (SceneView, RenderTarget, usize, FrameInfo),
    LoadError,
> {
    if !(data is Object) {
        Err(LoadError::Root)
    } else {
        match required(data, Part::Root, Key::Film) {
            Err(e) => Err(e),
            Ok(film) => match film_of(film) {
                Err(e) => Err(e),
                Ok((target, samples, frames)) => match required(data, Part::Root, Key::Camera) {
                    Err(e) => Err(e),
                    Ok(camera) => match camera_of(camera, (target.width, target.height)) {
                        Err(e) => Err(e),
                        Ok(camera) => match required(data, Part::Root, Key::Integrator) {
                            Err(e) => Err(e),
                            Ok(integrator) => match integrator_of(integrator) {
                                Err(e) => Err(e),
                                Ok(integrator) => match required(
                                    data,
                                    Part::Root,
                                    Key::Materials,
                                ) {
                                    Err(e) => Err(e),
                                    Ok(materials) => match materials_of(materials) {
                                        Err(e) => Err(e),
                                        Ok(materials) => match required(
                                            data,
                                            Part::Root,
                                            Key::Objects,
                                        ) {
                                            Err(e) => Err(e),
                                            Ok(objects) => match objects_of(
                                                materials,
                                                objects,
                                                Seq::empty(),
                                            ) {
                                                Err(e) => Err(e),
                                                Ok(instances) => if instances.len() == 0 {
                                                    Err(
                                                        fault(
                                                            Part::Root,
                                                            Key::Objects,
                                                            Kind::Empty,
                                                        ),
                                                    )
                                                } else {
                                                    Ok(
                                                        (
                                                            SceneView {
                                                                camera,
                                                                bvh: BVHView {
                                                                    max_leaf_size: MAX_LEAF_SIZE,
                                                                    instances,
                                                                    start_time: Real {
                                                                        bits: ZERO_BITS,
                                                                    },
                                                                    end_time: Real {
                                                                        bits: TWO_BITS,
                                                                    },
                                                                },
                                                                integrator,
                                                                materials,
                                                            },
                                                            target,
                                                            samples,
                                                            frames,
                                                        ),
                                                    )
                                                },
                                            },
                                        },
                                    },
                                },
                            },
                        },
                    },
                },
            },
        }
    }
}

/// What the text of a scene file states.
pub open spec fn scene_of(content: Seq<char>) -> Result<
    (SceneView, RenderTarget, usize, FrameInfo),
    LoadError,
> {
    match document(content) {
        None => Err(LoadError::Syntax),
        Some(data) => scene_of_document(data),
    }
}

/// What loading gave, as contracts speak of it.
pub open spec fn loaded(r: Result<(Scene, RenderTarget, usize, FrameInfo), LoadError>) -> Result<
    (SceneView, RenderTarget, usize, FrameInfo),
    LoadError,
> {
    match r {
        Ok((scene, target, samples, frames)) => Ok((scene@, target, samples, frames)),
        Err(e) => Err(e),
    }
}

impl Scene {
    /// Tells whether the scene can be rendered.
    pub fn is_well_formed(&self) -> (r: bool)
        ensures
            r == self@.well_formed(),
    {
        if !self.camera.transform.is_well_formed() || self.bvh.instances.len() == 0
            || !has_distinct_names(&self.materials) {
            return false;
        }
        let ghost views = instance_views(self.bvh.instances@);
        let mut i: usize = 0;
        while i < self.bvh.instances.len()
            invariant
                i <= self.bvh.instances.len(),
                views == instance_views(self.bvh.instances@),
                self.materials@.len() == material_views(self.materials@).len(),
                forall|j: int| 0 <= j < i ==> (#[trigger] views[j]).sound(self.materials@.len()),
            decreases self.bvh.instances.len() - i,
        {
            if !self.bvh.instances[i].is_sound(self.materials.len()) {
                assert(!views[i as int].sound(self.materials@.len()));
                return false;
            }
            i += 1;
        }
        true
    }

    /// Loads the scene that the text of a scene file states, with the render
    /// target, the number of samples for each pixel, and the frames.
    pub fn load_file(content: &str) -> (r: Result<(Scene, RenderTarget, usize, FrameInfo), LoadError>)
        ensures
            loaded(r) == scene_of(content@),
    {
        let data = parse(content)?;
        Scene::from_document(&data)
    }

    /// Loads the scene that a document states, with the render target, the
    /// number of samples for each pixel, and the frames.
    pub fn from_document(data: &Json) -> (r: Result<
        (Scene, RenderTarget, usize, FrameInfo),
        LoadError,
    >)
        ensures
            loaded(r) == scene_of_document(*data),
            r matches Ok((scene, _, _, _)) ==> scene@.well_formed(),
    {
        if !data.is_object() {
            return Err(LoadError::Root);
        }
        let (target, samples, frames) = load_film(require(data, Part::Root, Key::Film)?)?;
        let camera = load_camera(require(data, Part::Root, Key::Camera)?, target.dimensions())?;
        let integrator = load_integrator(require(data, Part::Root, Key::Integrator)?)?;
        let materials = load_materials(require(data, Part::Root, Key::Materials)?)?;
        let instances = load_objects(&materials, require(data, Part::Root, Key::Objects)?)?;
        if instances.len() == 0 {
            return Err(LoadError::at(Part::Root, Key::Objects, Kind::Empty));
        }
        let scene = Scene {
            camera,
            bvh: BVH::new(MAX_LEAF_SIZE, instances, Real::zero(), Real::two()),
            integrator,
            materials,
        };
        Ok((scene, target, samples, frames))
    }
}

} // verus!
