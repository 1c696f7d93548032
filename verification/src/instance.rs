//! The objects that a scene places: receivers, lights, and groups of them.

use crate::error::{Key, Kind, LoadError, Part};
use crate::error::{fault, missing, mistyped};
use crate::geometry::{geometry_of, load_geometry, load_sampleable_geometry};
use crate::geometry::{sampleable_geometry_of, Geometry, GeometryView};
use crate::json::{require, require_text, required, required_text, same_text, Json};
use crate::material::{find_material, material_named, material_views};
use crate::material::{NamedMaterial, NamedMaterialView};
use crate::outcome::{viewed, viewed_option};
use crate::scalar::{Real, ZERO_BITS};
use crate::transform::{keyframes_of, load_keyframes, load_transform, transform_of};
use crate::transform::{increasing, keyframe_views, lemma_product_well_formed};
use crate::transform::{lemma_single_layer, well_formed};
use crate::transform::{AnimatedTransform, Keyframe, KeyframeView};
use crate::values::{animated_color_of, load_animated_color, require_point, required_point};
use crate::values::{AnimatedColor, ColorKeyframe, Point};
use vstd::prelude::*;

verus! {

/// What an instance places in the scene. A material is told by its place in
/// the scene's list of materials.
#[derive(Clone, Debug, PartialEq, Eq)]
pub enum Body {
    /// A shape that receives light.
    Receiver { geometry: Geometry, material: usize },
    /// A light at a point.
    PointLight { position: Point, emission: AnimatedColor },
    /// A shape that emits light.
    AreaLight { geometry: Geometry, material: usize, emission: AnimatedColor },
}

/// What an instance places, as contracts speak of it.
pub enum BodyView {
    Receiver { geometry: GeometryView, material: usize },
    PointLight { position: Point, emission: Seq<ColorKeyframe> },
    AreaLight { geometry: GeometryView, material: usize, emission: Seq<ColorKeyframe> },
}

impl View for Body {
    type V = BodyView;

    open spec fn view(&self) -> BodyView {
        match *self {
            Body::Receiver { geometry, material } => BodyView::Receiver {
                geometry: geometry@,
                material,
            },
            Body::PointLight { position, emission } => BodyView::PointLight {
                position,
                emission: emission@,
            },
            Body::AreaLight { geometry, material, emission } => BodyView::AreaLight {
                geometry: geometry@,
                material,
                emission: emission@,
            },
        }
    }
}

/// A named placement of a shape or a light in the scene.
#[derive(Clone, Debug, PartialEq, Eq)]
pub struct Instance {
    pub name: String,
    pub body: Body,
    pub transform: AnimatedTransform,
}

/// An instance as contracts speak of it.
pub struct InstanceView {
    pub name: Seq<char>,
    pub body: BodyView,
    pub transform: Seq<Seq<KeyframeView>>,
}

impl View for Instance {
    type V = InstanceView;

    open spec fn view(&self) -> InstanceView {
        InstanceView { name: self.name@, body: self.body@, transform: self.transform@ }
    }
}

/// A list of instances as contracts speak of it.
pub open spec fn instance_views(list: Seq<Instance>) -> Seq<InstanceView> {
    Seq::new(list.len(), |i: int| list[i]@)
}

impl InstanceView {
    /// Whether the instance can be rendered with a list of `count`
    /// materials: the times of its keyframes increase, its material, where
    /// it has one, is in the list, and its shape, where it is an area light,
    /// can be sampled.
    pub open spec fn sound(self, count: nat) -> bool {
        &&& well_formed(self.transform)
        &&& match self.body {
            BodyView::Receiver { material, .. } => material < count,
            BodyView::PointLight { .. } => true,
            BodyView::AreaLight { geometry, material, .. } => material < count
                && geometry.sampleable(),
        }
    }

    /// The instance under the transform of a group around it.
    pub open spec fn under(self, outer: Seq<Seq<KeyframeView>>) -> InstanceView {
        InstanceView { transform: outer + self.transform, ..self }
    }
}

/// Whether every instance of a list can be rendered with a list of `count`
/// materials.
pub open spec fn all_sound(list: Seq<InstanceView>, count: nat) -> bool {
    forall|i: int| 0 <= i < list.len() ==> (#[trigger] list[i]).sound(count)
}

/// The instances of a list under the transform of a group around them.
pub open spec fn placed_under(list: Seq<InstanceView>, outer: Seq<Seq<KeyframeView>>) -> Seq<
    InstanceView,
> {
    Seq::new(list.len(), |i: int| list[i].under(outer))
}

/// What a list of objects states under the transform of a group, given what
/// it states on its own.
pub open spec fn lifted(
    alone: Result<Seq<InstanceView>, LoadError>,
    outer: Seq<Seq<KeyframeView>>,
) -> Result<Seq<InstanceView>, LoadError> {
    match alone {
        Ok(list) => Ok(placed_under(list, outer)),
        Err(e) => Err(e),
    }
}

impl Instance {
    /// Tells whether the instance can be rendered with a list of `count`
    /// materials.
    pub fn is_sound(&self, count: usize) -> (r: bool)
        ensures
            r == self@.sound(count as nat),
    {
        if !self.transform.is_well_formed() {
            return false;
        }
        match &self.body {
            Body::Receiver { material, .. } => *material < count,
            Body::PointLight { .. } => true,
            Body::AreaLight { geometry, material, .. } => *material < count
                && geometry.is_sampleable(),
        }
    }

    /// A shape that receives light, placed by a transform.
    pub fn receiver(
        geometry: Geometry,
        material: usize,
        transform: AnimatedTransform,
        name: String,
    ) -> (r: Instance)
        ensures
            r@ == (InstanceView {
                name: name@,
                body: BodyView::Receiver { geometry: geometry@, material },
                transform: transform@,
            }),
    {
        Instance { name, body: Body::Receiver { geometry, material }, transform }
    }

    /// A light at a point. No transform places it.
    pub fn point_light(position: Point, emission: AnimatedColor, name: String) -> (r: Instance)
        ensures
            r@ == (InstanceView {
                name: name@,
                body: BodyView::PointLight { position, emission: emission@ },
                transform: Seq::empty(),
            }),
    {
        let r = Instance {
            name,
            body: Body::PointLight { position, emission },
            transform: AnimatedTransform { layers: Vec::new() },
        };
        assert(r.transform@ =~= Seq::<Seq<KeyframeView>>::empty());
        r
    }

    /// A shape that emits light, placed by a transform.
    pub fn area_light(
        geometry: Geometry,
        material: usize,
        emission: AnimatedColor,
        transform: AnimatedTransform,
        name: String,
    ) -> (r: Instance)
        ensures
            r@ == (InstanceView {
                name: name@,
                body: BodyView::AreaLight { geometry: geometry@, material, emission: emission@ },
                transform: transform@,
            }),
    {
        Instance { name, body: Body::AreaLight { geometry, material, emission }, transform }
    }

    /// The transform that places the instance.
    pub fn get_transform(&self) -> (r: &AnimatedTransform)
        ensures
            r@ == self@.transform,
    {
        &self.transform
    }

    /// Places the instance by another transform.
    pub fn set_transform(&mut self, transform: AnimatedTransform)
        ensures
            final(self)@ == (InstanceView { transform: transform@, ..old(self)@ }),
    {
        self.transform = transform;
    }
}

/// The transform that a part of the document states for itself: by its
/// `keyframes`, or else by its `transform`, which holds from time zero. A
/// part with neither states none.
pub open spec fn placement_of(o: Json, part: Part) -> Result<
    Option<Seq<Seq<KeyframeView>>>,
    LoadError,
> {
    match o.field(Key::Keyframes.text()) {
        Some(t) => match keyframes_of(t) {
            Err(e) => Err(e),
            Ok(None) => Err(mistyped(part, Key::Keyframes)),
            Ok(Some(layers)) => Ok(Some(layers)),
        },
        None => match o.field(Key::Transform.text()) {
            Some(t) => match transform_of(t) {
                Err(e) => Err(e),
                Ok(None) => Err(mistyped(part, Key::Transform)),
                Ok(Some(ops)) => Ok(
                    Some(
                        seq![seq![KeyframeView { transform: ops, time: Real { bits: ZERO_BITS } }]],
                    ),
                ),
            },
            None => Ok(None),
        },
    }
}

/// The light that an object of type `emitter` states, under the transform
/// `outer` of the groups around it and its own transform `own`. A point light
/// is placed by the groups alone.
pub open spec fn emitter_of(
    materials: Seq<NamedMaterialView>,
    o: Json,
    name: Seq<char>,
    outer: Seq<Seq<KeyframeView>>,
    own: Seq<Seq<KeyframeView>>,
) -> Result<InstanceView, LoadError> {
    match required_text(o, Part::Emitter, Key::Emitter) {
        Err(e) => Err(e),
        Ok(emitter) => match required(o, Part::Emitter, Key::Emission) {
            Err(e) => Err(e),
            Ok(value) => match animated_color_of(value) {
                Err(e) => Err(e),
                Ok(None) => Err(mistyped(Part::Emitter, Key::Emission)),
                Ok(Some(emission)) => if emitter == "point"@ {
                    match required_point(o, Part::PointLight, Key::Position) {
                        Err(e) => Err(e),
                        Ok(position) => Ok(
                            InstanceView {
                                name,
                                body: BodyView::PointLight { position, emission },
                                transform: outer,
                            },
                        ),
                    }
                } else if emitter == "area"@ {
                    match required_text(o, Part::AreaLight, Key::Material) {
                        Err(e) => Err(e),
                        Ok(wanted) => match material_named(materials, wanted) {
                            None => Err(fault(Part::AreaLight, Key::Material, Kind::Unresolved)),
                            Some(material) => match required(o, Part::AreaLight, Key::Geometry) {
                                Err(e) => Err(e),
                                Ok(shape) => match sampleable_geometry_of(shape) {
                                    Err(e) => Err(e),
                                    Ok(geometry) => Ok(
                                        InstanceView {
                                            name,
                                            body: BodyView::AreaLight {
                                                geometry,
                                                material,
                                                emission,
                                            },
                                            transform: outer + own,
                                        },
                                    ),
                                },
                            },
                        },
                    }
                } else {
                    Err(fault(Part::Emitter, Key::Emitter, Kind::Unrecognized))
                },
            },
        },
    }
}

/// The receiver that an object of type `receiver` states, under the transform
/// `outer` of the groups around it and its own transform `own`.
pub open spec fn receiver_of(
    materials: Seq<NamedMaterialView>,
    o: Json,
    name: Seq<char>,
    outer: Seq<Seq<KeyframeView>>,
    own: Seq<Seq<KeyframeView>>,
) -> Result<InstanceView, LoadError> {
    match required_text(o, Part::Receiver, Key::Material) {
        Err(e) => Err(e),
        Ok(wanted) => match material_named(materials, wanted) {
            None => Err(fault(Part::Receiver, Key::Material, Kind::Unresolved)),
            Some(material) => match required(o, Part::Receiver, Key::Geometry) {
                Err(e) => Err(e),
                Ok(shape) => match geometry_of(shape) {
                    Err(e) => Err(e),
                    Ok(geometry) => Ok(
                        InstanceView {
                            name,
                            body: BodyView::Receiver { geometry, material },
                            transform: outer + own,
                        },
                    ),
                },
            },
        },
    }
}

/// The instances that an entry of a list of objects states, under the
/// transform `outer` of the groups around it: its `name`, then its `type`,
/// then its own transform, then what the type asks for. A light or a
/// receiver states one instance; a group states those of its `objects`, each
/// under the transform of the group.
pub open spec fn object_of(
    materials: Seq<NamedMaterialView>,
    o: Json,
    outer: Seq<Seq<KeyframeView>>,
) -> Result<Seq<InstanceView>, LoadError>
    decreases o, 0nat,
{
    match required_text(o, Part::Object, Key::Name) {
        Err(e) => Err(e),
        Ok(name) => match required_text(o, Part::Object, Key::Type) {
            Err(e) => Err(e),
            Ok(ty) => match placement_of(o, Part::Object) {
                Err(e) => Err(e),
                Ok(None) => Err(missing(Part::Object, Key::Transform)),
                Ok(Some(own)) => if ty == "emitter"@ {
                    match emitter_of(materials, o, name, outer, own) {
                        Err(e) => Err(e),
                        Ok(instance) => Ok(seq![instance]),
                    }
                } else if ty == "receiver"@ {
                    match receiver_of(materials, o, name, outer, own) {
                        Err(e) => Err(e),
                        Ok(instance) => Ok(seq![instance]),
                    }
                } else if ty == "group"@ {
                    match o {
                        Json::Object(entries) => {
                            let at = Json::position(entries@, Key::Objects.text());
                            if 0 <= at < entries@.len() {
                                objects_of(materials, entries@[at].1, outer + own)
                            } else {
                                Err(missing(Part::Group, Key::Objects))
                            }
                        },
                        _ => Err(missing(Part::Group, Key::Objects)),
                    }
                } else {
                    Err(fault(Part::Object, Key::Type, Kind::Unrecognized))
                },
            },
        },
    }
}

/// The instances that the first `n` items of a list of objects state, in the
/// order of the items; the first fault, in that order, is the fault of the
/// list.
pub open spec fn objects_upto(
    materials: Seq<NamedMaterialView>,
    items: Seq<Json>,
    n: nat,
    outer: Seq<Seq<KeyframeView>>,
) -> Result<Seq<InstanceView>, LoadError>
    decreases items, n,
{
    if n == 0 || n > items.len() {
        Ok(Seq::empty())
    } else {
        match objects_upto(materials, items, (n - 1) as nat, outer) {
            Err(e) => Err(e),
            Ok(front) => match object_of(materials, items[n - 1], outer) {
                Err(e) => Err(e),
                Ok(more) => Ok(front + more),
            },
        }
    }
}

/// The instances that a value states, under the transform `outer` of the
/// groups around it: the value is an array of objects.
pub open spec fn objects_of(
    materials: Seq<NamedMaterialView>,
    elem: Json,
    outer: Seq<Seq<KeyframeView>>,
) -> Result<Seq<InstanceView>, LoadError>
    decreases elem, 1nat,
{
    match elem {
        Json::Array(items) => objects_upto(materials, items@, items@.len(), outer),
        _ => Err(mistyped(Part::Root, Key::Objects)),
    }
}

/// A value under a key of an object is smaller than the object.
pub proof fn lemma_field_smaller(o: Json, key: Seq<char>)
    ensures
        o.field(key) matches Some(value) ==> decreases_to!(o => value),
{
    match o {
        Json::Object(entries) => {
            let at = Json::position(entries@, key);
            if 0 <= at < entries@.len() {
                assert(decreases_to!(o => entries));
                assert(decreases_to!(entries => entries[at]));
                assert(decreases_to!(entries[at] => entries[at].1));
            }
        },
        _ => {},
    }
}

/// A fault among the first objects of a list is the fault of every longer
/// part of the list.
pub proof fn lemma_objects_fault(
    materials: Seq<NamedMaterialView>,
    items: Seq<Json>,
    k: nat,
    n: nat,
    outer: Seq<Seq<KeyframeView>>,
)
    requires
        k <= n <= items.len(),
        objects_upto(materials, items, k, outer) is Err,
    ensures
        objects_upto(materials, items, n, outer) == objects_upto(materials, items, k, outer),
    decreases n - k,
{
    if k < n {
        lemma_objects_fault(materials, items, k, (n - 1) as nat, outer);
    }
}

/// The transform that a part of the document states for itself has times
/// that increase.
pub proof fn lemma_placement_well_formed(o: Json, part: Part)
    ensures
        placement_of(o, part) matches Ok(Some(layers)) ==> well_formed(layers),
{
    match o.field(Key::Keyframes.text()) {
        Some(t) => match keyframes_of(t) {
            Ok(Some(layers)) => {
                assert forall|i: int| 0 <= i < layers.len() implies increasing(
                    #[trigger] layers[i],
                ) by {
                    assert(layers[i] == layers[0]);
                }
            },
            _ => {},
        },
        None => match o.field(Key::Transform.text()) {
            Some(t) => match transform_of(t) {
                Ok(Some(ops)) => {
                    lemma_single_layer(ops);
                },
                _ => {},
            },
            None => {},
        },
    }
}

/// Every instance that an entry of a list of objects states can be rendered
/// with the list of materials that it was read with.
pub proof fn lemma_object_sound(
    materials: Seq<NamedMaterialView>,
    o: Json,
    outer: Seq<Seq<KeyframeView>>,
)
    requires
        well_formed(outer),
    ensures
        object_of(materials, o, outer) matches Ok(list) ==> all_sound(list, materials.len()),
    decreases o, 0nat,
{
    if object_of(materials, o, outer) is Ok {
        let ty = required_text(o, Part::Object, Key::Type)->Ok_0;
        let own = placement_of(o, Part::Object)->Ok_0->Some_0;
        lemma_placement_well_formed(o, Part::Object);
        lemma_product_well_formed(outer, own);
        if ty == "emitter"@ {
        } else if ty == "receiver"@ {
        } else {
            let entries = o->Object_0;
            let at = Json::position(entries@, Key::Objects.text());
            lemma_objects_sound(materials, entries@[at].1, outer + own);
        }
    }
}

/// Every instance that the first `n` objects of a list state can be rendered
/// with the list of materials that they were read with.
pub proof fn lemma_objects_upto_sound(
    materials: Seq<NamedMaterialView>,
    items: Seq<Json>,
    n: nat,
    outer: Seq<Seq<KeyframeView>>,
)
    requires
        well_formed(outer),
    ensures
        objects_upto(materials, items, n, outer) matches Ok(list) ==> all_sound(
            list,
            materials.len(),
        ),
    decreases items, n,
{
    if !(n == 0 || n > items.len()) {
        lemma_objects_upto_sound(materials, items, (n - 1) as nat, outer);
        lemma_object_sound(materials, items[n - 1], outer);
    }
}

/// Every instance that a list of objects states can be rendered with the
/// list of materials that it was read with: the times of its keyframes
/// increase, its material is in the list, and the shape of an area light can
/// be sampled.
pub proof fn lemma_objects_sound(
    materials: Seq<NamedMaterialView>,
    elem: Json,
    outer: Seq<Seq<KeyframeView>>,
)
    requires
        well_formed(outer),
    ensures
        objects_of(materials, elem, outer) matches Ok(list) ==> all_sound(list, materials.len()),
    decreases elem, 1nat,
{
    match elem {
        Json::Array(items) => lemma_objects_upto_sound(materials, items@, items@.len(), outer),
        _ => {},
    }
}

/// The transform of a group is multiplied onto each of its members: what an
/// entry states under the transform of the groups around it is what it
/// states on its own, each instance put under that transform.
pub proof fn lemma_object_under(
    materials: Seq<NamedMaterialView>,
    o: Json,
    outer: Seq<Seq<KeyframeView>>,
)
    ensures
        object_of(materials, o, outer) == lifted(object_of(materials, o, Seq::empty()), outer),
    decreases o, 0nat,
{
    let none = Seq::<Seq<KeyframeView>>::empty();
    let alone = object_of(materials, o, none);
    let placed = object_of(materials, o, outer);
    if required_text(o, Part::Object, Key::Name) is Ok && required_text(
        o,
        Part::Object,
        Key::Type,
    ) is Ok && placement_of(o, Part::Object) is Ok && placement_of(o, Part::Object)->Ok_0 is Some {
        let name = required_text(o, Part::Object, Key::Name)->Ok_0;
        let ty = required_text(o, Part::Object, Key::Type)->Ok_0;
        let own = placement_of(o, Part::Object)->Ok_0->Some_0;
        assert(none + own =~= own);
        assert(outer + none =~= outer);
        assert(outer + (none + own) =~= outer + own);
        if ty == "emitter"@ {
            let a = emitter_of(materials, o, name, none, own);
            let p = emitter_of(materials, o, name, outer, own);
            if a is Ok {
                assert(p is Ok);
                assert(p->Ok_0 == a->Ok_0.under(outer));
                assert(placed_under(seq![a->Ok_0], outer) =~= seq![p->Ok_0]);
            }
        } else if ty == "receiver"@ {
            let a = receiver_of(materials, o, name, none, own);
            let p = receiver_of(materials, o, name, outer, own);
            if a is Ok {
                assert(p is Ok);
                assert(p->Ok_0 == a->Ok_0.under(outer));
                assert(placed_under(seq![a->Ok_0], outer) =~= seq![p->Ok_0]);
            }
        } else if ty == "group"@ {
            if o.field(Key::Objects.text()) is Some {
                let entries = o->Object_0;
                let at = Json::position(entries@, Key::Objects.text());
                let members = entries@[at].1;
                lemma_objects_under(materials, members, outer + own);
                lemma_objects_under(materials, members, none + own);
                let bare = objects_of(materials, members, none);
                if bare is Ok {
                    lemma_placed_twice(bare->Ok_0, outer, own);
                }
            }
        }
    }
}

/// The transform of a group is multiplied onto each of its members, for the
/// first `n` objects of a list.
pub proof fn lemma_objects_upto_under(
    materials: Seq<NamedMaterialView>,
    items: Seq<Json>,
    n: nat,
    outer: Seq<Seq<KeyframeView>>,
)
    ensures
        objects_upto(materials, items, n, outer) == lifted(
            objects_upto(materials, items, n, Seq::empty()),
            outer,
        ),
    decreases items, n,
{
    let none = Seq::<Seq<KeyframeView>>::empty();
    if n == 0 || n > items.len() {
        assert(placed_under(Seq::<InstanceView>::empty(), outer) =~= Seq::<InstanceView>::empty());
    } else {
        lemma_objects_upto_under(materials, items, (n - 1) as nat, outer);
        lemma_object_under(materials, items[n - 1], outer);
        let front = objects_upto(materials, items, (n - 1) as nat, none);
        let more = object_of(materials, items[n - 1], none);
        if front is Ok && more is Ok {
            assert(placed_under(front->Ok_0 + more->Ok_0, outer) =~= placed_under(
                front->Ok_0,
                outer,
            ) + placed_under(more->Ok_0, outer));
        }
    }
}

/// The transform of a group is multiplied onto each of its members: what a
/// list of objects states under the transform of the groups around it is what
/// it states on its own, each instance put under that transform.
pub proof fn lemma_objects_under(
    materials: Seq<NamedMaterialView>,
    elem: Json,
    outer: Seq<Seq<KeyframeView>>,
)
    ensures
        objects_of(materials, elem, outer) == lifted(
            objects_of(materials, elem, Seq::empty()),
            outer,
        ),
    decreases elem, 1nat,
{
    match elem {
        Json::Array(items) => lemma_objects_upto_under(materials, items@, items@.len(), outer),
        _ => {},
    }
}

/// Putting instances under the transform of a group and then under that of a
/// group around it puts them under the product of the two.
pub proof fn lemma_placed_twice(
    list: Seq<InstanceView>,
    outer: Seq<Seq<KeyframeView>>,
    inner: Seq<Seq<KeyframeView>>,
)
    ensures
        placed_under(placed_under(list, inner), outer) == placed_under(list, outer + inner),
        placed_under(list, Seq::empty() + inner) == placed_under(list, inner),
{
    assert(Seq::<Seq<KeyframeView>>::empty() + inner =~= inner);
    assert forall|i: int| 0 <= i < list.len() implies placed_under(placed_under(list, inner), outer)[i]
        == placed_under(list, outer + inner)[i] by {
        assert(outer + (inner + list[i].transform) =~= (outer + inner) + list[i].transform);
    }
    assert(placed_under(placed_under(list, inner), outer) =~= placed_under(list, outer + inner));
}

/// Reads the transform that a part of the document states for itself.
pub fn load_placement(o: &Json, part: Part) -> (r: Result<Option<AnimatedTransform>, LoadError>)
    ensures
        viewed_option(r) == placement_of(*o, part),
        r matches Ok(Some(animated)) ==> well_formed(animated@),
{
    proof {
        lemma_placement_well_formed(*o, part);
    }
    match o.find(Key::Keyframes.name()) {
        Some(t) => match load_keyframes(t)? {
            Some(animated) => Ok(Some(animated)),
            None => Err(LoadError::at(part, Key::Keyframes, Kind::Mistyped)),
        },
        None => match o.find(Key::Transform.name()) {
            Some(t) => match load_transform(t)? {
                Some(transform) => {
                    let key = Keyframe { transform, time: Real::zero() };
                    let mut keyframes: Vec<Keyframe> = Vec::new();
                    keyframes.push(key);
                    assert(keyframe_views(keyframes@) =~= seq![key@]);
                    let animated = AnimatedTransform::with_keyframes(keyframes);
                    Ok(Some(animated))
                },
                None => Err(LoadError::at(part, Key::Transform, Kind::Mistyped)),
            },
            None => Ok(None),
        },
    }
}

/// Reads a light.
fn load_emitter(
    materials: &Vec<NamedMaterial>,
    o: &Json,
    name: &str,
    outer: &AnimatedTransform,
    own: &AnimatedTransform,
) -> (r: Result<Instance, LoadError>)
    ensures
        viewed(r) == emitter_of(material_views(materials@), *o, name@, outer@, own@),
{
    let emitter = require_text(o, Part::Emitter, Key::Emitter)?;
    let value = require(o, Part::Emitter, Key::Emission)?;
    let emission = match load_animated_color(value)? {
        Some(emission) => emission,
        None => return Err(LoadError::at(Part::Emitter, Key::Emission, Kind::Mistyped)),
    };
    if same_text(emitter, "point") {
        let position = require_point(o, Part::PointLight, Key::Position)?;
        let mut light = Instance::point_light(position, emission, name.to_owned());
        light.set_transform(outer.duplicate());
        Ok(light)
    } else if same_text(emitter, "area") {
        let wanted = require_text(o, Part::AreaLight, Key::Material)?;
        let material = match find_material(materials, wanted) {
            Some(material) => material,
            None => return Err(LoadError::at(Part::AreaLight, Key::Material, Kind::Unresolved)),
        };
        let shape = require(o, Part::AreaLight, Key::Geometry)?;
        let geometry = load_sampleable_geometry(shape)?;
        let transform = AnimatedTransform::product(outer, own);
        Ok(Instance::area_light(geometry, material, emission, transform, name.to_owned()))
    } else {
        Err(LoadError::at(Part::Emitter, Key::Emitter, Kind::Unrecognized))
    }
}

/// Reads a receiver.
fn load_receiver(
    materials: &Vec<NamedMaterial>,
    o: &Json,
    name: &str,
    outer: &AnimatedTransform,
    own: &AnimatedTransform,
) -> (r: Result<Instance, LoadError>)
    ensures
        viewed(r) == receiver_of(material_views(materials@), *o, name@, outer@, own@),
{
    let wanted = require_text(o, Part::Receiver, Key::Material)?;
    let material = match find_material(materials, wanted) {
        Some(material) => material,
        None => return Err(LoadError::at(Part::Receiver, Key::Material, Kind::Unresolved)),
    };
    let shape = require(o, Part::Receiver, Key::Geometry)?;
    let geometry = load_geometry(shape)?;
    let transform = AnimatedTransform::product(outer, own);
    Ok(Instance::receiver(geometry, material, transform, name.to_owned()))
}

/// Reads an entry of a list of objects and puts the instances that it states
/// behind those that are there.
fn load_object(
    materials: &Vec<NamedMaterial>,
    o: &Json,
    outer: &AnimatedTransform,
    instances: &mut Vec<Instance>,
) -> (r: Result<(), LoadError>)
    ensures
        match r {
            Ok(_) => {
                &&& object_of(material_views(materials@), *o, outer@) is Ok
                &&& instance_views(final(instances)@) == instance_views(old(instances)@)
                    + object_of(material_views(materials@), *o, outer@)->Ok_0
            },
            Err(e) => object_of(material_views(materials@), *o, outer@) == Err::<
                Seq<InstanceView>,
                LoadError,
            >(e),
        },
    decreases *o, 0nat,
{
    let name = require_text(o, Part::Object, Key::Name)?;
    let ty = require_text(o, Part::Object, Key::Type)?;
    let own = match load_placement(o, Part::Object)? {
        Some(own) => own,
        None => return Err(LoadError::at(Part::Object, Key::Transform, Kind::Missing)),
    };
    if same_text(ty, "emitter") {
        let light = load_emitter(materials, o, name, outer, &own)?;
        let ghost before = instance_views(instances@);
        instances.push(light);
        assert(instance_views(instances@) =~= before + seq![light@]);
        Ok(())
    } else if same_text(ty, "receiver") {
        let receiver = load_receiver(materials, o, name, outer, &own)?;
        let ghost before = instance_views(instances@);
        instances.push(receiver);
        assert(instance_views(instances@) =~= before + seq![receiver@]);
        Ok(())
    } else if same_text(ty, "group") {
        let members = require(o, Part::Group, Key::Objects)?;
        let total = AnimatedTransform::product(outer, &own);
        proof {
            lemma_field_smaller(*o, Key::Objects.text());
        }
        load_objects_under(materials, members, &total, instances)
    } else {
        Err(LoadError::at(Part::Object, Key::Type, Kind::Unrecognized))
    }
}

/// Reads a list of objects and puts the instances that it states behind those
/// that are there.
fn load_objects_under(
    materials: &Vec<NamedMaterial>,
    elem: &Json,
    outer: &AnimatedTransform,
    instances: &mut Vec<Instance>,
) -> (r: Result<(), LoadError>)
    ensures
        match r {
            Ok(_) => {
                &&& objects_of(material_views(materials@), *elem, outer@) is Ok
                &&& instance_views(final(instances)@) == instance_views(old(instances)@)
                    + objects_of(material_views(materials@), *elem, outer@)->Ok_0
            },
            Err(e) => objects_of(material_views(materials@), *elem, outer@) == Err::<
                Seq<InstanceView>,
                LoadError,
            >(e),
        },
    decreases *elem, 1nat,
{
    let array = match elem.as_array() {
        Some(a) => a,
        None => return Err(LoadError::at(Part::Root, Key::Objects, Kind::Mistyped)),
    };
    let ghost mut found: Seq<InstanceView> = Seq::empty();
    let mut i: usize = 0;
    assert(instance_views(instances@) =~= instance_views(old(instances)@) + found);
    while i < array.len()
        invariant
            i <= array.len(),
            *elem is Array,
            elem->Array_0@ == array@,
            objects_upto(material_views(materials@), array@, i as nat, outer@) == Ok::<
                Seq<InstanceView>,
                LoadError,
            >(found),
            instance_views(instances@) == instance_views(old(instances)@) + found,
        decreases array.len() - i,
    {
        let ghost before = instance_views(instances@);
        proof {
            assert(decreases_to!(*elem => elem->Array_0));
            assert(decreases_to!(elem->Array_0 => elem->Array_0[i as int]));
            assert(elem->Array_0[i as int] == array@[i as int]);
        }
        match load_object(materials, &array[i], outer, instances) {
            Ok(_) => {
                proof {
                    let more = object_of(material_views(materials@), array@[i as int], outer@)->Ok_0;
                    assert(instance_views(instances@) =~= instance_views(old(instances)@) + (found
                        + more));
                    found = found + more;
                }
            },
            Err(e) => {
                proof {
                    lemma_objects_fault(
                        material_views(materials@),
                        array@,
                        (i + 1) as nat,
                        array@.len(),
                        outer@,
                    );
                }
                return Err(e);
            },
        }
        i += 1;
    }
    Ok(())
}

/// Reads the list of objects of a scene. The instances come in the order of
/// the document, those of a group in the place of the group. A material is
/// told by its place in `materials`.
pub fn load_objects(materials: &Vec<NamedMaterial>, elem: &Json) -> (r: Result<
    Vec<Instance>,
    LoadError,
>)
    ensures
        match r {
            Ok(list) => objects_of(material_views(materials@), *elem, Seq::empty()) == Ok::<
                Seq<InstanceView>,
                LoadError,
            >(instance_views(list@)),
            Err(e) => objects_of(material_views(materials@), *elem, Seq::empty()) == Err::<
                Seq<InstanceView>,
                LoadError,
            >(e),
        },
        r matches Ok(list) ==> all_sound(instance_views(list@), materials@.len()),
{
    proof {
        lemma_objects_sound(material_views(materials@), *elem, Seq::empty());
    }
    let outer = AnimatedTransform { layers: Vec::new() };
    assert(outer@ =~= Seq::<Seq<KeyframeView>>::empty());
    let mut instances: Vec<Instance> = Vec::new();
    assert(instance_views(instances@) =~= Seq::<InstanceView>::empty());
    match load_objects_under(materials, elem, &outer, &mut instances) {
        Ok(_) => {
            assert(instance_views(instances@) =~= objects_of(
                material_views(materials@),
                *elem,
                Seq::empty(),
            )->Ok_0);
            Ok(instances)
        },
        Err(e) => Err(e),
    }
}

} // verus!
