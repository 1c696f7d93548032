//! Vectors, points and colours of a scene document.

use crate::error::{Key, Kind, LoadError, Part};
use crate::error::{missing, mistyped};
use crate::json::{require, require_real, required, required_real, Json};
use crate::outcome::{lemma_traverse_fault, lemma_traverse_step, traverse, viewed_option};
use crate::scalar::{Real, ZERO_BITS};
use vstd::prelude::*;

verus! {

/// A direction in space.
#[derive(Clone, Copy, Debug, PartialEq, Eq, Structural)]
pub struct Vector {
    pub x: Real,
    pub y: Real,
    pub z: Real,
}

/// A place in space.
#[derive(Clone, Copy, Debug, PartialEq, Eq, Structural)]
pub struct Point {
    pub x: Real,
    pub y: Real,
    pub z: Real,
}

/// The three channels of a colour.
#[derive(Clone, Copy, Debug, PartialEq, Eq)]
pub struct Colorf {
    pub r: Real,
    pub g: Real,
    pub b: Real,
}

/// A colour as a document states it: three channels and, where a fourth
/// number follows them, the scale that each channel is to be multiplied by.
#[derive(Clone, Copy, Debug, PartialEq, Eq)]
pub struct ScaledColor {
    pub base: Colorf,
    pub scale: Option<Real>,
}

/// A colour and the time at which it holds.
#[derive(Clone, Copy, Debug, PartialEq, Eq)]
pub struct ColorKeyframe {
    pub color: ScaledColor,
    pub time: Real,
}

/// A colour that changes over time: its keyframes, in the order of the
/// document.
#[derive(Clone, Debug, PartialEq, Eq)]
pub struct AnimatedColor {
    pub keyframes: Vec<ColorKeyframe>,
}

impl View for AnimatedColor {
    type V = Seq<ColorKeyframe>;

    open spec fn view(&self) -> Seq<ColorKeyframe> {
        self.keyframes@
    }
}

impl Colorf {
    /// Whether every channel is zero.
    pub open spec fn black(self) -> bool {
        self.r.is_zero() && self.g.is_zero() && self.b.is_zero()
    }

    /// The colour with the given channels.
    pub fn new(r: Real, g: Real, b: Real) -> (c: Colorf)
        ensures
            c == (Colorf { r, g, b }),
    {
        Colorf { r, g, b }
    }

    /// Tells whether every channel is zero.
    pub fn is_black(&self) -> (r: bool)
        ensures
            r == self.black(),
    {
        self.r.zero_valued() && self.g.zero_valued() && self.b.zero_valued()
    }
}

/// The three numbers that a value is an array of.
pub open spec fn triple_of(elem: Json) -> Option<(Real, Real, Real)> {
    match elem.items() {
        Some(items) => if items.len() == 3 {
            match (items[0].number(), items[1].number(), items[2].number()) {
                (Some(x), Some(y), Some(z)) => Some((x, y, z)),
                _ => None,
            }
        } else {
            None
        },
        None => None,
    }
}

/// The vector that a value states: an array of three numbers.
pub open spec fn vector_of(elem: Json) -> Option<Vector> {
    match triple_of(elem) {
        Some((x, y, z)) => Some(Vector { x, y, z }),
        None => None,
    }
}

/// The point that a value states: an array of three numbers.
pub open spec fn point_of(elem: Json) -> Option<Point> {
    match triple_of(elem) {
        Some((x, y, z)) => Some(Point { x, y, z }),
        None => None,
    }
}

/// The colour that a value states: an array of three numbers, or of four,
/// the last of which scales the others.
pub open spec fn color_of(elem: Json) -> Option<ScaledColor> {
    match elem.items() {
        Some(items) => if items.len() == 3 || items.len() == 4 {
            match (items[0].number(), items[1].number(), items[2].number()) {
                (Some(r), Some(g), Some(b)) => if items.len() == 3 {
                    Some(ScaledColor { base: Colorf { r, g, b }, scale: None })
                } else {
                    match items[3].number() {
                        Some(s) => Some(ScaledColor { base: Colorf { r, g, b }, scale: Some(s) }),
                        None => None,
                    }
                },
                _ => None,
            }
        } else {
            None
        },
        None => None,
    }
}

/// The colour under a key that a part of the document must have.
pub open spec fn required_color(elem: Json, part: Part, key: Key) -> Result<ScaledColor, LoadError> {
    match elem.field(key.text()) {
        Some(value) => match color_of(value) {
            Some(color) => Ok(color),
            None => Err(mistyped(part, key)),
        },
        None => Err(missing(part, key)),
    }
}

/// The vector under a key that a part of the document must have.
pub open spec fn required_vector(elem: Json, part: Part, key: Key) -> Result<Vector, LoadError> {
    match elem.field(key.text()) {
        Some(value) => match vector_of(value) {
            Some(v) => Ok(v),
            None => Err(mistyped(part, key)),
        },
        None => Err(missing(part, key)),
    }
}

/// The point under a key that a part of the document must have.
pub open spec fn required_point(elem: Json, part: Part, key: Key) -> Result<Point, LoadError> {
    match elem.field(key.text()) {
        Some(value) => match point_of(value) {
            Some(p) => Ok(p),
            None => Err(mistyped(part, key)),
        },
        None => Err(missing(part, key)),
    }
}

/// The keyframe that an item of a list of colour keyframes states.
pub open spec fn color_keyframe_of(item: Json) -> Result<ColorKeyframe, LoadError> {
    match required_real(item, Part::ColorKeyframe, Key::Time) {
        Err(e) => Err(e),
        Ok(time) => match required(item, Part::ColorKeyframe, Key::Color) {
            Err(e) => Err(e),
            Ok(value) => match color_of(value) {
                None => Err(mistyped(Part::ColorKeyframe, Key::Color)),
                Some(color) => Ok(ColorKeyframe { color, time }),
            },
        },
    }
}

/// The changing colour that a value states. A value that is no array, or an
/// empty one, states none. An array that starts with a number states one
/// colour, which holds from time zero. Any other array is a list of
/// keyframes, each with its `time` and its `color`.
pub open spec fn animated_color_of(elem: Json) -> Result<Option<Seq<ColorKeyframe>>, LoadError> {
    match elem.items() {
        None => Ok(None),
        Some(items) => if items.len() == 0 {
            Ok(None)
        } else if items[0] is Number {
            match color_of(elem) {
                Some(color) => Ok(
                    Some(seq![ColorKeyframe { color, time: Real { bits: ZERO_BITS } }]),
                ),
                None => Ok(None),
            }
        } else {
            match traverse(items, |item: Json| color_keyframe_of(item)) {
                Err(e) => Err(e),
                Ok(keyframes) => Ok(Some(keyframes)),
            }
        },
    }
}

/// Reads the three numbers that a value is an array of.
fn load_triple(elem: &Json) -> (r: Option<(Real, Real, Real)>)
    ensures
        r == triple_of(*elem),
{
    let array = match elem.as_array() {
        Some(a) => a,
        None => return None,
    };
    if array.len() != 3 {
        return None;
    }
    let x = match array[0].as_real() {
        Some(x) => x,
        None => return None,
    };
    let y = match array[1].as_real() {
        Some(y) => y,
        None => return None,
    };
    let z = match array[2].as_real() {
        Some(z) => z,
        None => return None,
    };
    Some((x, y, z))
}

/// Reads a vector: an array of three numbers.
pub fn load_vector(elem: &Json) -> (r: Option<Vector>)
    ensures
        r == vector_of(*elem),
{
    match load_triple(elem) {
        Some((x, y, z)) => Some(Vector { x, y, z }),
        None => None,
    }
}

/// Reads a point: an array of three numbers.
pub fn load_point(elem: &Json) -> (r: Option<Point>)
    ensures
        r == point_of(*elem),
{
    match load_triple(elem) {
        Some((x, y, z)) => Some(Point { x, y, z }),
        None => None,
    }
}

/// Reads a colour: an array of three numbers, or of four, the last of which
/// scales the others.
pub fn load_color(elem: &Json) -> (r: Option<ScaledColor>)
    ensures
        r == color_of(*elem),
{
    let array = match elem.as_array() {
        Some(a) => a,
        None => return None,
    };
    if array.len() != 3 && array.len() != 4 {
        return None;
    }
    let r = match array[0].as_real() {
        Some(x) => x,
        None => return None,
    };
    let g = match array[1].as_real() {
        Some(x) => x,
        None => return None,
    };
    let b = match array[2].as_real() {
        Some(x) => x,
        None => return None,
    };
    if array.len() == 4 {
        match array[3].as_real() {
            Some(s) => Some(ScaledColor { base: Colorf { r, g, b }, scale: Some(s) }),
            None => None,
        }
    } else {
        Some(ScaledColor { base: Colorf { r, g, b }, scale: None })
    }
}

/// Reads the colour under a key that a part of the document must have.
pub fn require_color(elem: &Json, part: Part, key: Key) -> (r: Result<ScaledColor, LoadError>)
    ensures
        r == required_color(*elem, part, key),
{
    match elem.find(key.name()) {
        Some(value) => match load_color(value) {
            Some(color) => Ok(color),
            None => Err(LoadError::at(part, key, Kind::Mistyped)),
        },
        None => Err(LoadError::at(part, key, Kind::Missing)),
    }
}

/// Reads the vector under a key that a part of the document must have.
pub fn require_vector(elem: &Json, part: Part, key: Key) -> (r: Result<Vector, LoadError>)
    ensures
        r == required_vector(*elem, part, key),
{
    match elem.find(key.name()) {
        Some(value) => match load_vector(value) {
            Some(v) => Ok(v),
            None => Err(LoadError::at(part, key, Kind::Mistyped)),
        },
        None => Err(LoadError::at(part, key, Kind::Missing)),
    }
}

/// Reads the point under a key that a part of the document must have.
pub fn require_point(elem: &Json, part: Part, key: Key) -> (r: Result<Point, LoadError>)
    ensures
        r == required_point(*elem, part, key),
{
    match elem.find(key.name()) {
        Some(value) => match load_point(value) {
            Some(p) => Ok(p),
            None => Err(LoadError::at(part, key, Kind::Mistyped)),
        },
        None => Err(LoadError::at(part, key, Kind::Missing)),
    }
}

/// Reads one keyframe of a changing colour.
fn load_color_keyframe(item: &Json) -> (r: Result<ColorKeyframe, LoadError>)
    ensures
        r == color_keyframe_of(*item),
{
    let time = require_real(item, Part::ColorKeyframe, Key::Time)?;
    let value = require(item, Part::ColorKeyframe, Key::Color)?;
    match load_color(value) {
        Some(color) => Ok(ColorKeyframe { color, time }),
        None => Err(LoadError::at(Part::ColorKeyframe, Key::Color, Kind::Mistyped)),
    }
}

/// Reads a colour that changes over time.
pub fn load_animated_color(elem: &Json) -> (r: Result<Option<AnimatedColor>, LoadError>)
    ensures
        viewed_option(r) == animated_color_of(*elem),
{
    let array = match elem.as_array() {
        Some(a) => a,
        None => return Ok(None),
    };
    if array.len() == 0 {
        return Ok(None);
    }
    if array[0].is_number() {
        match load_color(elem) {
            Some(color) => {
                let mut keyframes: Vec<ColorKeyframe> = Vec::new();
                keyframes.push(ColorKeyframe { color, time: Real::zero() });
                assert(keyframes@ =~= seq![ColorKeyframe { color, time: Real { bits: ZERO_BITS } }]);
                Ok(Some(AnimatedColor { keyframes }))
            },
            None => Ok(None),
        }
    } else {
        let ghost read = |item: Json| color_keyframe_of(item);
        let mut keyframes: Vec<ColorKeyframe> = Vec::new();
        let mut i: usize = 0;
        while i < array.len()
            invariant
                i <= array.len(),
                elem.items() == Some(array@),
                array@.len() > 0,
                !(array@[0] is Number),
                read == (|item: Json| color_keyframe_of(item)),
                traverse(array@.take(i as int), read) == Ok::<Seq<ColorKeyframe>, LoadError>(
                    keyframes@,
                ),
            decreases array.len() - i,
        {
            proof {
                lemma_traverse_step(array@, read, i as int);
            }
            match load_color_keyframe(&array[i]) {
                Ok(keyframe) => keyframes.push(keyframe),
                Err(e) => {
                    proof {
                        lemma_traverse_fault(array@, read, i as int + 1);
                    }
                    return Err(e);
                },
            }
            i += 1;
        }
        assert(array@.take(i as int) =~= array@);
        Ok(Some(AnimatedColor { keyframes }))
    }
}

} // verus!
