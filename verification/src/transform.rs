//! Transforms and their keyframes.

use crate::error::{Key, Kind, LoadError, Part};
use crate::error::{fault, mistyped};
use crate::json::{require, require_real, require_text, same_text, Json};
use crate::json::{required, required_real, required_text};
use crate::outcome::{lemma_traverse_fault, lemma_traverse_step, traverse, viewed};
use crate::outcome::viewed_option;
use crate::scalar::{Real, ZERO_BITS};
use crate::values::{load_vector, require_vector, required_vector, vector_of, Point, Vector};
use vstd::prelude::*;

verus! {

/// One step of a transform.
#[derive(Clone, Copy, Debug, PartialEq, Eq, Structural)]
pub enum TransformOp {
    /// A shift along a vector.
    Translate(Vector),
    /// A scaling, by one factor for each axis.
    Scale(Vector),
    /// A turn about the x axis, in degrees.
    RotateX(Real),
    /// A turn about the y axis, in degrees.
    RotateY(Real),
    /// A turn about the z axis, in degrees.
    RotateZ(Real),
    /// A turn about an axis, in degrees.
    Rotate { axis: Vector, degrees: Real },
    /// The placement of a viewer at a position, looking at a target.
    LookAt { position: Point, target: Point, up: Vector },
}

/// A transform: its steps, each applied after those before it. Without
/// steps it is the identity.
#[derive(Clone, Debug, PartialEq, Eq)]
pub struct Transform {
    pub ops: Vec<TransformOp>,
}

impl View for Transform {
    type V = Seq<TransformOp>;

    open spec fn view(&self) -> Seq<TransformOp> {
        self.ops@
    }
}

/// A transform and the time at which it holds.
#[derive(Clone, Debug, PartialEq, Eq)]
pub struct Keyframe {
    pub transform: Transform,
    pub time: Real,
}

/// A keyframe as contracts speak of it.
pub struct KeyframeView {
    pub transform: Seq<TransformOp>,
    pub time: Real,
}

impl View for Keyframe {
    type V = KeyframeView;

    open spec fn view(&self) -> KeyframeView {
        KeyframeView { transform: self.transform@, time: self.time }
    }
}

/// A list of keyframes as contracts speak of it.
pub open spec fn keyframe_views(list: Seq<Keyframe>) -> Seq<KeyframeView> {
    Seq::new(list.len(), |i: int| list[i]@)
}

/// A transform that changes over time. It is the product of its layers, the
/// outermost first; a layer is a list of keyframes, in the order in which
/// they were given. Without layers it is the identity at all times.
#[derive(Clone, Debug, PartialEq, Eq)]
pub struct AnimatedTransform {
    pub layers: Vec<Vec<Keyframe>>,
}

impl View for AnimatedTransform {
    type V = Seq<Seq<KeyframeView>>;

    open spec fn view(&self) -> Seq<Seq<KeyframeView>> {
        Seq::new(self.layers@.len(), |i: int| keyframe_views(self.layers@[i]@))
    }
}

/// Whether the times of a list of keyframes are numbers and strictly
/// increasing.
pub open spec fn increasing(keys: Seq<KeyframeView>) -> bool {
    &&& forall|i: int| 0 <= i < keys.len() ==> !(#[trigger] keys[i]).time.is_nan()
    &&& forall|i: int, j: int|
        0 <= i < j < keys.len() ==> (#[trigger] keys[i]).time.rank() < (#[trigger] keys[j]).time.rank()
}

/// Whether every layer of a changing transform has times that are numbers
/// and strictly increasing.
pub open spec fn well_formed(layers: Seq<Seq<KeyframeView>>) -> bool {
    forall|i: int| 0 <= i < layers.len() ==> increasing(#[trigger] layers[i])
}

/// Why the reading of a list of steps stops: at a fault, or at a step of a
/// type that is not known, which is no fault.
pub type Stop = Option<LoadError>;

/// The step that an item of a list of steps states.
pub open spec fn transform_op_of(t: Json) -> Result<TransformOp, Stop> {
    match required_text(t, Part::Transform, Key::Type) {
        Err(e) => Err(Some(e)),
        Ok(ty) => if ty == "translate"@ {
            match required_vector(t, Part::Translate, Key::Translation) {
                Err(e) => Err(Some(e)),
                Ok(v) => Ok(TransformOp::Translate(v)),
            }
        } else if ty == "scale"@ {
            match required(t, Part::Scale, Key::Scaling) {
                Err(e) => Err(Some(e)),
                Ok(s) => if s is Array {
                    match vector_of(s) {
                        Some(v) => Ok(TransformOp::Scale(v)),
                        None => Err(Some(mistyped(Part::Scale, Key::Scaling))),
                    }
                } else if s is Number {
                    match s.number() {
                        Some(x) => Ok(TransformOp::Scale(Vector { x, y: x, z: x })),
                        None => Err(Some(mistyped(Part::Scale, Key::Scaling))),
                    }
                } else {
                    Err(Some(fault(Part::Scale, Key::Scaling, Kind::Unrecognized)))
                },
            }
        } else if ty == "rotate_x"@ {
            match required_real(t, Part::RotateX, Key::Rotation) {
                Err(e) => Err(Some(e)),
                Ok(degrees) => Ok(TransformOp::RotateX(degrees)),
            }
        } else if ty == "rotate_y"@ {
            match required_real(t, Part::RotateY, Key::Rotation) {
                Err(e) => Err(Some(e)),
                Ok(degrees) => Ok(TransformOp::RotateY(degrees)),
            }
        } else if ty == "rotate_z"@ {
            match required_real(t, Part::RotateZ, Key::Rotation) {
                Err(e) => Err(Some(e)),
                Ok(degrees) => Ok(TransformOp::RotateZ(degrees)),
            }
        } else if ty == "rotate"@ {
            match required_real(t, Part::Rotate, Key::Rotation) {
                Err(e) => Err(Some(e)),
                Ok(degrees) => match required_vector(t, Part::Rotate, Key::Axis) {
                    Err(e) => Err(Some(e)),
                    Ok(axis) => Ok(TransformOp::Rotate { axis, degrees }),
                },
            }
        } else {
            Err(None)
        },
    }
}

/// The transform that a value states. A value that is no array states none.
/// An array is a list of steps, read in their order up to the first that is
/// at fault or of a type that is not known; such a type makes the list state
/// no transform.
pub open spec fn transform_of(elem: Json) -> Result<Option<Seq<TransformOp>>, LoadError> {
    match elem.items() {
        None => Ok(None),
        Some(items) => match traverse(items, |t: Json| transform_op_of(t)) {
            Ok(ops) => Ok(Some(ops)),
            Err(None) => Ok(None),
            Err(Some(e)) => Err(e),
        },
    }
}

/// The keyframe that an item of a list of keyframes states: its `time` and
/// its `transform`.
pub open spec fn keyframe_of(t: Json) -> Result<KeyframeView, LoadError> {
    match required_real(t, Part::Keyframe, Key::Time) {
        Err(e) => Err(e),
        Ok(time) => match required(t, Part::Keyframe, Key::Transform) {
            Err(e) => Err(e),
            Ok(value) => match transform_of(value) {
                Err(e) => Err(e),
                Ok(None) => Err(mistyped(Part::Keyframe, Key::Transform)),
                Ok(Some(transform)) => Ok(KeyframeView { transform, time }),
            },
        },
    }
}

/// The changing transform that a value states. A value that is no array
/// states none. An array is a list of keyframes, which make one layer; once
/// all are read, their times must be strictly increasing.
pub open spec fn keyframes_of(elem: Json) -> Result<Option<Seq<Seq<KeyframeView>>>, LoadError> {
    match elem.items() {
        None => Ok(None),
        Some(items) => match traverse(items, |t: Json| keyframe_of(t)) {
            Err(e) => Err(e),
            Ok(keyframes) => if increasing(keyframes) {
                Ok(Some(seq![keyframes]))
            } else {
                Err(fault(Part::Keyframe, Key::Time, Kind::Misordered))
            },
        },
    }
}

impl Transform {
    /// The transform that changes nothing.
    pub fn identity() -> (r: Transform)
        ensures
            r@ == Seq::<TransformOp>::empty(),
    {
        Transform { ops: Vec::new() }
    }

    /// The transform of one step.
    pub fn step(op: TransformOp) -> (r: Transform)
        ensures
            r@ == seq![op],
    {
        let mut ops: Vec<TransformOp> = Vec::new();
        ops.push(op);
        assert(ops@ =~= seq![op]);
        Transform { ops }
    }

    /// A copy of the transform.
    pub fn duplicate(&self) -> (r: Transform)
        ensures
            r@ == self@,
    {
        let mut ops: Vec<TransformOp> = Vec::new();
        let mut i: usize = 0;
        while i < self.ops.len()
            invariant
                i <= self.ops.len(),
                ops@ == self.ops@.take(i as int),
            decreases self.ops.len() - i,
        {
            ops.push(self.ops[i]);
            assert(ops@ =~= self.ops@.take(i as int + 1));
            i += 1;
        }
        assert(self.ops@.take(i as int) =~= self.ops@);
        Transform { ops }
    }
}

impl Keyframe {
    /// The keyframe that holds a transform at a time.
    pub fn new(transform: &Transform, time: Real) -> (r: Keyframe)
        ensures
            r@ == (KeyframeView { transform: transform@, time }),
    {
        Keyframe { transform: transform.duplicate(), time }
    }

    /// A copy of the keyframe.
    pub fn duplicate(&self) -> (r: Keyframe)
        ensures
            r@ == self@,
    {
        Keyframe { transform: self.transform.duplicate(), time: self.time }
    }
}

/// A copy of a list of keyframes.
pub fn duplicate_keyframes(list: &Vec<Keyframe>) -> (r: Vec<Keyframe>)
    ensures
        keyframe_views(r@) == keyframe_views(list@),
{
    let mut out: Vec<Keyframe> = Vec::new();
    let mut i: usize = 0;
    while i < list.len()
        invariant
            i <= list.len(),
            keyframe_views(out@) == keyframe_views(list@).take(i as int),
        decreases list.len() - i,
    {
        let ghost before = keyframe_views(out@);
        let copy = list[i].duplicate();
        out.push(copy);
        assert(keyframe_views(out@) =~= before.push(copy@));
        assert(keyframe_views(out@) =~= keyframe_views(list@).take(i as int + 1));
        i += 1;
    }
    assert(keyframe_views(list@).take(i as int) =~= keyframe_views(list@));
    out
}

/// Tells whether the times of a list of keyframes are numbers and strictly
/// increasing.
pub fn is_increasing(keys: &Vec<Keyframe>) -> (r: bool)
    ensures
        r == increasing(keyframe_views(keys@)),
{
    let ghost views = keyframe_views(keys@);
    if keys.len() == 0 {
        return true;
    }
    if keys[0].time.nan() {
        assert(views[0].time.is_nan());
        return false;
    }
    let mut i: usize = 1;
    while i < keys.len()
        invariant
            1 <= i <= keys.len(),
            views == keyframe_views(keys@),
            increasing(views.take(i as int)),
        decreases keys.len() - i,
    {
        if !keys[i - 1].time.less_than(&keys[i].time) {
            proof {
                if increasing(views) {
                    assert(!views[i - 1].time.is_nan());
                    assert(!views[i as int].time.is_nan());
                    assert(views[i - 1].time.rank() < views[i as int].time.rank());
                }
            }
            return false;
        }
        proof {
            let front = views.take(i as int);
            let next = views.take(i + 1);
            assert forall|a: int, b: int| 0 <= a < b < next.len() implies (#[trigger] next[a]).time.rank()
                < (#[trigger] next[b]).time.rank() by {
                if b < i {
                    assert(front[a].time.rank() < front[b].time.rank());
                } else if a < i - 1 {
                    assert(front[a].time.rank() < front[i - 1].time.rank());
                }
            }
            assert forall|a: int| 0 <= a < next.len() implies !(#[trigger] next[a]).time.is_nan() by {
                if a < i {
                    assert(!front[a].time.is_nan());
                }
            }
        }
        i += 1;
    }
    assert(views.take(i as int) =~= views);
    true
}

impl AnimatedTransform {
    /// The transform of one layer, with the given keyframes.
    pub fn with_keyframes(keyframes: Vec<Keyframe>) -> (r: AnimatedTransform)
        ensures
            r@ == seq![keyframe_views(keyframes@)],
            increasing(keyframe_views(keyframes@)) ==> well_formed(r@),
    {
        let mut layers: Vec<Vec<Keyframe>> = Vec::new();
        layers.push(keyframes);
        let r = AnimatedTransform { layers };
        assert(r@ =~= seq![keyframe_views(keyframes@)]);
        r
    }

    /// Tells whether every layer has times that are numbers and strictly
    /// increasing.
    pub fn is_well_formed(&self) -> (r: bool)
        ensures
            r == well_formed(self@),
    {
        let mut i: usize = 0;
        while i < self.layers.len()
            invariant
                i <= self.layers.len(),
                forall|j: int| 0 <= j < i ==> increasing(#[trigger] self@[j]),
            decreases self.layers.len() - i,
        {
            if !is_increasing(&self.layers[i]) {
                assert(!increasing(self@[i as int]));
                return false;
            }
            i += 1;
        }
        true
    }

    /// A copy of the transform.
    pub fn duplicate(&self) -> (r: AnimatedTransform)
        ensures
            r@ == self@,
    {
        let mut r = AnimatedTransform { layers: Vec::new() };
        r.extend(self);
        assert(r@ =~= self@);
        r
    }

    /// Puts the layers of `inner` under the layers of this transform, so that
    /// this transform becomes its product with `inner`.
    pub fn extend(&mut self, inner: &AnimatedTransform)
        ensures
            final(self)@ == old(self)@ + inner@,
            well_formed(old(self)@) && well_formed(inner@) ==> well_formed(final(self)@),
    {
        proof {
            if well_formed(old(self)@) && well_formed(inner@) {
                lemma_product_well_formed(old(self)@, inner@);
            }
        }
        let mut i: usize = 0;
        while i < inner.layers.len()
            invariant
                i <= inner.layers.len(),
                self@ == old(self)@ + inner@.take(i as int),
            decreases inner.layers.len() - i,
        {
            let ghost before = self@;
            let layer = duplicate_keyframes(&inner.layers[i]);
            self.layers.push(layer);
            assert(self@ =~= before.push(keyframe_views(layer@)));
            assert(inner@[i as int] == keyframe_views(inner.layers@[i as int]@));
            assert(self@ =~= old(self)@ + inner@.take(i as int + 1));
            i += 1;
        }
        assert(inner@.take(i as int) =~= inner@);
    }

    /// The product of two transforms: `outer` applied after `inner`.
    pub fn product(outer: &AnimatedTransform, inner: &AnimatedTransform) -> (r: AnimatedTransform)
        ensures
            r@ == outer@ + inner@,
            well_formed(outer@) && well_formed(inner@) ==> well_formed(r@),
    {
        proof {
            if well_formed(outer@) && well_formed(inner@) {
                lemma_product_well_formed(outer@, inner@);
            }
        }
        let mut r = outer.duplicate();
        r.extend(inner);
        r
    }
}

/// Reads one step of a transform.
fn load_transform_op(t: &Json) -> (r: Result<TransformOp, Stop>)
    ensures
        r == transform_op_of(*t),
{
    let ty = match require_text(t, Part::Transform, Key::Type) {
        Ok(ty) => ty,
        Err(e) => return Err(Some(e)),
    };
    if same_text(ty, "translate") {
        match require_vector(t, Part::Translate, Key::Translation) {
            Ok(v) => Ok(TransformOp::Translate(v)),
            Err(e) => Err(Some(e)),
        }
    } else if same_text(ty, "scale") {
        let s = match require(t, Part::Scale, Key::Scaling) {
            Ok(s) => s,
            Err(e) => return Err(Some(e)),
        };
        if s.is_array() {
            match load_vector(s) {
                Some(v) => Ok(TransformOp::Scale(v)),
                None => Err(Some(LoadError::at(Part::Scale, Key::Scaling, Kind::Mistyped))),
            }
        } else if s.is_number() {
            match s.as_real() {
                Some(x) => Ok(TransformOp::Scale(Vector { x, y: x, z: x })),
                None => Err(Some(LoadError::at(Part::Scale, Key::Scaling, Kind::Mistyped))),
            }
        } else {
            Err(Some(LoadError::at(Part::Scale, Key::Scaling, Kind::Unrecognized)))
        }
    } else if same_text(ty, "rotate_x") {
        match require_real(t, Part::RotateX, Key::Rotation) {
            Ok(degrees) => Ok(TransformOp::RotateX(degrees)),
            Err(e) => Err(Some(e)),
        }
    } else if same_text(ty, "rotate_y") {
        match require_real(t, Part::RotateY, Key::Rotation) {
            Ok(degrees) => Ok(TransformOp::RotateY(degrees)),
            Err(e) => Err(Some(e)),
        }
    } else if same_text(ty, "rotate_z") {
        match require_real(t, Part::RotateZ, Key::Rotation) {
            Ok(degrees) => Ok(TransformOp::RotateZ(degrees)),
            Err(e) => Err(Some(e)),
        }
    } else if same_text(ty, "rotate") {
        let degrees = match require_real(t, Part::Rotate, Key::Rotation) {
            Ok(degrees) => degrees,
            Err(e) => return Err(Some(e)),
        };
        match require_vector(t, Part::Rotate, Key::Axis) {
            Ok(axis) => Ok(TransformOp::Rotate { axis, degrees }),
            Err(e) => Err(Some(e)),
        }
    } else {
        Err(None)
    }
}

/// Reads a transform: a list of steps.
pub fn load_transform(elem: &Json) -> (r: Result<Option<Transform>, LoadError>)
    ensures
        viewed_option(r) == transform_of(*elem),
{
    let array = match elem.as_array() {
        Some(a) => a,
        None => return Ok(None),
    };
    let ghost read = |t: Json| transform_op_of(t);
    let mut ops: Vec<TransformOp> = Vec::new();
    let mut i: usize = 0;
    while i < array.len()
        invariant
            i <= array.len(),
            elem.items() == Some(array@),
            read == (|t: Json| transform_op_of(t)),
            traverse(array@.take(i as int), read) == Ok::<Seq<TransformOp>, Stop>(ops@),
        decreases array.len() - i,
    {
        proof {
            lemma_traverse_step(array@, read, i as int);
        }
        match load_transform_op(&array[i]) {
            Ok(op) => ops.push(op),
            Err(stop) => {
                proof {
                    lemma_traverse_fault(array@, read, i as int + 1);
                }
                match stop {
                    Some(e) => return Err(e),
                    None => return Ok(None),
                }
            },
        }
        i += 1;
    }
    assert(array@.take(i as int) =~= array@);
    Ok(Some(Transform { ops }))
}

/// Reads one keyframe of a changing transform.
fn load_keyframe(t: &Json) -> (r: Result<Keyframe, LoadError>)
    ensures
        viewed(r) == keyframe_of(*t),
{
    let time = require_real(t, Part::Keyframe, Key::Time)?;
    let value = require(t, Part::Keyframe, Key::Transform)?;
    match load_transform(value)? {
        Some(transform) => Ok(Keyframe { transform, time }),
        None => Err(LoadError::at(Part::Keyframe, Key::Transform, Kind::Mistyped)),
    }
}

/// A keyframe at time zero is a layer whose times increase.
pub proof fn lemma_single_layer(transform: Seq<TransformOp>)
    ensures
        well_formed(seq![seq![KeyframeView { transform, time: Real { bits: ZERO_BITS } }]]),
{
    let layer = seq![KeyframeView { transform, time: Real { bits: ZERO_BITS } }];
    assert(increasing(layer));
    assert forall|i: int| 0 <= i < seq![layer].len() implies increasing(#[trigger] seq![layer][i]) by {
        assert(seq![layer][i] == layer);
    }
}

/// The product of two transforms whose times increase is one whose times
/// increase.
pub proof fn lemma_product_well_formed(
    outer: Seq<Seq<KeyframeView>>,
    inner: Seq<Seq<KeyframeView>>,
)
    requires
        well_formed(outer),
        well_formed(inner),
    ensures
        well_formed(outer + inner),
{
    assert forall|i: int| 0 <= i < (outer + inner).len() implies increasing(
        #[trigger] (outer + inner)[i],
    ) by {
        if i < outer.len() {
            assert((outer + inner)[i] == outer[i]);
        } else {
            assert((outer + inner)[i] == inner[i - outer.len()]);
        }
    }
}

/// Reads a changing transform: a list of keyframes.
pub fn load_keyframes(elem: &Json) -> (r: Result<Option<AnimatedTransform>, LoadError>)
    ensures
        viewed_option(r) == keyframes_of(*elem),
        r matches Ok(Some(animated)) ==> well_formed(animated@),
{
    let array = match elem.as_array() {
        Some(a) => a,
        None => return Ok(None),
    };
    let ghost read = |t: Json| keyframe_of(t);
    let mut keyframes: Vec<Keyframe> = Vec::new();
    let mut i: usize = 0;
    assert(keyframe_views(keyframes@) =~= Seq::<KeyframeView>::empty());
    while i < array.len()
        invariant
            i <= array.len(),
            elem.items() == Some(array@),
            read == (|t: Json| keyframe_of(t)),
            traverse(array@.take(i as int), read) == Ok::<Seq<KeyframeView>, LoadError>(
                keyframe_views(keyframes@),
            ),
        decreases array.len() - i,
    {
        proof {
            lemma_traverse_step(array@, read, i as int);
        }
        match load_keyframe(&array[i]) {
            Ok(keyframe) => {
                let ghost before = keyframe_views(keyframes@);
                keyframes.push(keyframe);
                assert(keyframe_views(keyframes@) =~= before.push(keyframe@));
            },
            Err(e) => {
                proof {
                    lemma_traverse_fault(array@, read, i as int + 1);
                }
                return Err(e);
            },
        }
        i += 1;
    }
    assert(array@.take(i as int) =~= array@);
    if !is_increasing(&keyframes) {
        return Err(LoadError::at(Part::Keyframe, Key::Time, Kind::Misordered));
    }
    Ok(Some(AnimatedTransform::with_keyframes(keyframes)))
}

} // verus!
