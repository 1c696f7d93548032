//! The film that a scene is rendered to, and the camera that looks at it.

use crate::error::{Key, Kind, LoadError, Part};
use crate::error::fault;
use crate::instance::{load_placement, placement_of};
use crate::json::{require, require_real, require_text, require_unsigned, same_text, Json};
use crate::json::{required, required_real, required_text, required_unsigned};
use crate::outcome::viewed;
use crate::scalar::{Real, ZERO_BITS};
use crate::transform::{AnimatedTransform, Keyframe, KeyframeView, Transform, TransformOp};
use crate::transform::{keyframe_views, lemma_single_layer, well_formed};
use crate::values::{require_point, require_vector, required_point, required_vector};
use vstd::prelude::*;

verus! {

/// The width and the height of the blocks in which a render target is
/// written.
pub const BLOCK_SIZE: usize = 2;

/// A reconstruction filter.
#[derive(Clone, Copy, Debug, PartialEq, Eq)]
pub enum Filter {
    /// The filter of Mitchell and Netravali, with its extent and its two
    /// parameters.
    MitchellNetravali { width: Real, height: Real, b: Real, c: Real },
}

/// The image that samples are written to.
#[derive(Clone, Copy, Debug, PartialEq, Eq)]
pub struct RenderTarget {
    pub width: usize,
    pub height: usize,
    /// The width and the height of the blocks in which it is written.
    pub block: (usize, usize),
    pub filter: Filter,
}

/// The frames of an animation: how many there are over the time of the
/// scene, and which of them are rendered.
#[derive(Clone, Copy, Debug, PartialEq, Eq)]
pub struct FrameInfo {
    pub frames: usize,
    pub time: Real,
    pub start: usize,
    pub end: usize,
}

/// The camera: where it is over time, its field of view, and the width and
/// height of the image that it looks at.
#[derive(Clone, Debug, PartialEq, Eq)]
pub struct Camera {
    pub transform: AnimatedTransform,
    pub fov: Real,
    pub width: usize,
    pub height: usize,
}

/// A camera as contracts speak of it.
pub struct CameraView {
    pub transform: Seq<Seq<KeyframeView>>,
    pub fov: Real,
    pub width: usize,
    pub height: usize,
}

impl View for Camera {
    type V = CameraView;

    open spec fn view(&self) -> CameraView {
        CameraView {
            transform: self.transform@,
            fov: self.fov,
            width: self.width,
            height: self.height,
        }
    }
}

/// A count of a document as a size of this machine: its low bits.
pub open spec fn size_of(n: u64) -> usize {
    n as usize
}

/// Takes a count of a document as a size of this machine.
pub fn to_size(n: u64) -> (r: usize)
    ensures
        r == size_of(n),
{
    #[verifier::truncate]
    (n as usize)
}

impl RenderTarget {
    /// The dimensions of the image.
    pub fn dimensions(&self) -> (r: (usize, usize))
        ensures
            r == (self.width, self.height),
    {
        (self.width, self.height)
    }
}

/// The filter that a value states: its `width` and `height`, then its
/// `type`, then what the type asks for.
pub open spec fn filter_of(elem: Json) -> Result<Filter, LoadError> {
    match required_real(elem, Part::Filter, Key::Width) {
        Err(e) => Err(e),
        Ok(width) => match required_real(elem, Part::Filter, Key::Height) {
            Err(e) => Err(e),
            Ok(height) => match required_text(elem, Part::Filter, Key::Type) {
                Err(e) => Err(e),
                Ok(ty) => if ty == "mitchell_netravali"@ {
                    match required_real(elem, Part::MitchellNetravali, Key::B) {
                        Err(e) => Err(e),
                        Ok(b) => match required_real(elem, Part::MitchellNetravali, Key::C) {
                            Err(e) => Err(e),
                            Ok(c) => Ok(Filter::MitchellNetravali { width, height, b, c }),
                        },
                    }
                } else {
                    Err(fault(Part::Filter, Key::Type, Kind::Unrecognized))
                },
            },
        },
    }
}

/// The frames that a film states, once its `start_frame` and `end_frame` are
/// read: the last frame must not lie before the first.
pub open spec fn frames_of(elem: Json, start: u64, end: u64) -> Result<FrameInfo, LoadError> {
    if size_of(end) < size_of(start) {
        Err(fault(Part::Film, Key::EndFrame, Kind::Misordered))
    } else {
        match required_unsigned(elem, Part::Film, Key::Frames) {
            Err(e) => Err(e),
            Ok(frames) => match required_real(elem, Part::Film, Key::SceneTime) {
                Err(e) => Err(e),
                Ok(time) => Ok(
                    FrameInfo {
                        frames: size_of(frames),
                        time,
                        start: size_of(start),
                        end: size_of(end),
                    },
                ),
            },
        }
    }
}

/// The film that a value states: the render target, the number of samples
/// for each pixel, and the frames. The entries are read in this order:
/// `width`, `height`, `samples`, `start_frame`, `end_frame`, `frames`,
/// `scene_time`, `filter`.
pub open spec fn film_of(elem: Json) -> Result<(RenderTarget, usize, FrameInfo), LoadError> {
    match required_unsigned(elem, Part::Film, Key::Width) {
        Err(e) => Err(e),
        Ok(width) => match required_unsigned(elem, Part::Film, Key::Height) {
            Err(e) => Err(e),
            Ok(height) => match required_unsigned(elem, Part::Film, Key::Samples) {
                Err(e) => Err(e),
                Ok(samples) => match required_unsigned(elem, Part::Film, Key::StartFrame) {
                    Err(e) => Err(e),
                    Ok(start) => match required_unsigned(elem, Part::Film, Key::EndFrame) {
                        Err(e) => Err(e),
                        Ok(end) => match frames_of(elem, start, end) {
                            Err(e) => Err(e),
                            Ok(frames) => match required(elem, Part::Film, Key::Filter) {
                                Err(e) => Err(e),
                                Ok(value) => match filter_of(value) {
                                    Err(e) => Err(e),
                                    Ok(filter) => Ok(
                                        (
                                            RenderTarget {
                                                width: size_of(width),
                                                height: size_of(height),
                                                block: (BLOCK_SIZE, BLOCK_SIZE),
                                                filter,
                                            },
                                            size_of(samples),
                                            frames,
                                        ),
                                    ),
                                },
                            },
                        },
                    },
                },
            },
        },
    }
}

/// The transform of a camera that states neither keyframes nor a transform:
/// it is at its `position`, looks at its `target`, and holds `up` upright,
/// from time zero.
pub open spec fn look_at_of(elem: Json) -> Result<Seq<Seq<KeyframeView>>, LoadError> {
    match required_point(elem, Part::Camera, Key::Position) {
        Err(e) => Err(e),
        Ok(position) => match required_point(elem, Part::Camera, Key::Target) {
            Err(e) => Err(e),
            Ok(target) => match required_vector(elem, Part::Camera, Key::Up) {
                Err(e) => Err(e),
                Ok(up) => Ok(
                    seq![
                        seq![
                            KeyframeView {
                                transform: seq![TransformOp::LookAt { position, target, up }],
                                time: Real { bits: ZERO_BITS },
                            },
                        ],
                    ],
                ),
            },
        },
    }
}

/// The camera that a value states for an image of the given dimensions: its
/// `fov`, then its transform.
pub open spec fn camera_of(elem: Json, dim: (usize, usize)) -> Result<CameraView, LoadError> {
    match required_real(elem, Part::Camera, Key::Fov) {
        Err(e) => Err(e),
        Ok(fov) => match placement_of(elem, Part::Camera) {
            Err(e) => Err(e),
            Ok(Some(transform)) => Ok(CameraView { transform, fov, width: dim.0, height: dim.1 }),
            Ok(None) => match look_at_of(elem) {
                Err(e) => Err(e),
                Ok(transform) => Ok(CameraView { transform, fov, width: dim.0, height: dim.1 }),
            },
        },
    }
}

/// Reads a reconstruction filter.
pub fn load_filter(elem: &Json) -> (r: Result<Filter, LoadError>)
    ensures
        r == filter_of(*elem),
{
    let width = require_real(elem, Part::Filter, Key::Width)?;
    let height = require_real(elem, Part::Filter, Key::Height)?;
    let ty = require_text(elem, Part::Filter, Key::Type)?;
    if same_text(ty, "mitchell_netravali") {
        let b = require_real(elem, Part::MitchellNetravali, Key::B)?;
        let c = require_real(elem, Part::MitchellNetravali, Key::C)?;
        Ok(Filter::MitchellNetravali { width, height, b, c })
    } else {
        Err(LoadError::at(Part::Filter, Key::Type, Kind::Unrecognized))
    }
}

/// Reads a film: the render target, the number of samples for each pixel,
/// and the frames.
pub fn load_film(elem: &Json) -> (r: Result<(RenderTarget, usize, FrameInfo), LoadError>)
    ensures
        r == film_of(*elem),
{
    let width = to_size(require_unsigned(elem, Part::Film, Key::Width)?);
    let height = to_size(require_unsigned(elem, Part::Film, Key::Height)?);
    let samples = to_size(require_unsigned(elem, Part::Film, Key::Samples)?);
    let start = to_size(require_unsigned(elem, Part::Film, Key::StartFrame)?);
    let end = to_size(require_unsigned(elem, Part::Film, Key::EndFrame)?);
    if end < start {
        return Err(LoadError::at(Part::Film, Key::EndFrame, Kind::Misordered));
    }
    let frames = to_size(require_unsigned(elem, Part::Film, Key::Frames)?);
    let time = require_real(elem, Part::Film, Key::SceneTime)?;
    let info = FrameInfo { frames, time, start, end };
    let value = require(elem, Part::Film, Key::Filter)?;
    let filter = load_filter(value)?;
    Ok((RenderTarget { width, height, block: (BLOCK_SIZE, BLOCK_SIZE), filter }, samples, info))
}

/// Reads the transform of a camera that states neither keyframes nor a
/// transform.
fn load_look_at(elem: &Json) -> (r: Result<AnimatedTransform, LoadError>)
    ensures
        viewed(r) == look_at_of(*elem),
        r matches Ok(animated) ==> well_formed(animated@),
{
    let position = require_point(elem, Part::Camera, Key::Position)?;
    let target = require_point(elem, Part::Camera, Key::Target)?;
    let up = require_vector(elem, Part::Camera, Key::Up)?;
    let transform = Transform::step(TransformOp::LookAt { position, target, up });
    let key = Keyframe { transform, time: Real::zero() };
    let mut keyframes: Vec<Keyframe> = Vec::new();
    keyframes.push(key);
    assert(keyframe_views(keyframes@) =~= seq![key@]);
    proof {
        lemma_single_layer(key@.transform);
    }
    Ok(AnimatedTransform::with_keyframes(keyframes))
}

/// Reads a camera for an image of the given dimensions.
pub fn load_camera(elem: &Json, dim: (usize, usize)) -> (r: Result<Camera, LoadError>)
    ensures
        viewed(r) == camera_of(*elem, dim),
        r matches Ok(camera) ==> well_formed(camera@.transform),
{
    let fov = require_real(elem, Part::Camera, Key::Fov)?;
    let transform = match load_placement(elem, Part::Camera)? {
        Some(transform) => transform,
        None => load_look_at(elem)?,
    };
    Ok(Camera { transform, fov, width: dim.0, height: dim.1 })
}

} // verus!
