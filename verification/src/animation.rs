//! Where a changing transform stands at a time.

use crate::scalar::Real;
use crate::transform::{increasing, keyframe_views, well_formed};
use crate::transform::{AnimatedTransform, Keyframe, KeyframeView, Transform};
use vstd::prelude::*;

verus! {

/// How a layer of keyframes is evaluated at a time.
#[derive(Clone, Copy, Debug, PartialEq, Eq)]
pub enum Pose {
    /// The layer has no keyframe and changes nothing.
    Identity,
    /// The transform of the keyframe at this place, taken as it is.
    Key(usize),
    /// An interpolation between the keyframe at this place and the next.
    Between(usize),
}

/// Whether `pose` is how a layer is evaluated at a time. A layer without
/// keyframes is the identity. At the time of a keyframe the layer is that
/// keyframe: no interpolation takes place. Before the first keyframe it is
/// the first, after the last it is the last. Between two keyframes next to
/// each other it is an interpolation of the two, unless their transforms are
/// the same: then it is that transform.
pub open spec fn is_pose(keys: Seq<KeyframeView>, time: Real, pose: Pose) -> bool {
    match pose {
        Pose::Identity => keys.len() == 0,
        Pose::Key(at) => {
            &&& at < keys.len()
            &&& {
                ||| keys[at as int].time.rank() == time.rank()
                ||| at == 0 && time.rank() < keys[0].time.rank()
                ||| at == keys.len() - 1 && keys[at as int].time.rank() < time.rank()
                ||| {
                    &&& at + 1 < keys.len()
                    &&& keys[at as int].time.rank() < time.rank() < keys[at + 1].time.rank()
                    &&& keys[at as int].transform == keys[at + 1].transform
                }
            }
        },
        Pose::Between(at) => {
            &&& at + 1 < keys.len()
            &&& keys[at as int].time.rank() < time.rank() < keys[at + 1].time.rank()
            &&& keys[at as int].transform != keys[at + 1].transform
        },
    }
}

/// Whether `poses` is how a changing transform is evaluated at a time: layer
/// by layer.
pub open spec fn are_poses(layers: Seq<Seq<KeyframeView>>, time: Real, poses: Seq<Pose>) -> bool {
    &&& poses.len() == layers.len()
    &&& forall|i: int| 0 <= i < layers.len() ==> is_pose(#[trigger] layers[i], time, poses[i])
}

/// A layer whose times increase is evaluated in one way only.
pub proof fn lemma_pose_unique(keys: Seq<KeyframeView>, time: Real, p: Pose, q: Pose)
    requires
        increasing(keys),
        is_pose(keys, time, p),
        is_pose(keys, time, q),
    ensures
        p == q,
{
    let a: int = match p {
        Pose::Identity => 0,
        Pose::Key(at) => at as int,
        Pose::Between(at) => at as int,
    };
    let b: int = match q {
        Pose::Identity => 0,
        Pose::Key(at) => at as int,
        Pose::Between(at) => at as int,
    };
    if keys.len() > 0 {
        assert(!keys[a].time.is_nan() && !keys[b].time.is_nan());
        if a < b {
            assert(keys[a].time.rank() < keys[b].time.rank());
            if a + 1 < b {
                assert(keys[a + 1].time.rank() < keys[b].time.rank());
            }
        } else if b < a {
            assert(keys[b].time.rank() < keys[a].time.rank());
            if b + 1 < a {
                assert(keys[b + 1].time.rank() < keys[a].time.rank());
            }
        }
        if a + 1 < keys.len() {
            assert(keys[a].time.rank() < keys[a + 1].time.rank());
        }
        if b + 1 < keys.len() {
            assert(keys[b].time.rank() < keys[b + 1].time.rank());
        }
        if 0 < a {
            assert(keys[0].time.rank() < keys[a].time.rank());
        }
        if 0 < b {
            assert(keys[0].time.rank() < keys[b].time.rank());
        }
        if a < keys.len() - 1 {
            assert(keys[a].time.rank() < keys[keys.len() - 1].time.rank());
        }
        if b < keys.len() - 1 {
            assert(keys[b].time.rank() < keys[keys.len() - 1].time.rank());
        }
    }
}

/// At the exact time of a keyframe, a layer is that keyframe's transform as
/// it is.
pub proof fn lemma_pose_at_keyframe(keys: Seq<KeyframeView>, at: int, pose: Pose)
    requires
        increasing(keys),
        0 <= at < keys.len() <= usize::MAX,
        is_pose(keys, keys[at].time, pose),
    ensures
        pose == Pose::Key(at as usize),
{
    assert(is_pose(keys, keys[at].time, Pose::Key(at as usize)));
    lemma_pose_unique(keys, keys[at].time, pose, Pose::Key(at as usize));
}

/// At any time between two keyframes with the same transform, their midpoint
/// among them, a layer is that transform as it is.
pub proof fn lemma_pose_between_equal(keys: Seq<KeyframeView>, at: int, time: Real, pose: Pose)
    requires
        increasing(keys),
        0 <= at,
        at + 1 < keys.len() <= usize::MAX,
        keys[at].transform == keys[at + 1].transform,
        keys[at].time.rank() <= time.rank() <= keys[at + 1].time.rank(),
        is_pose(keys, time, pose),
    ensures
        pose is Key,
        keys[pose->Key_0 as int].transform == keys[at].transform,
{
    if time.rank() == keys[at + 1].time.rank() {
        assert(is_pose(keys, time, Pose::Key((at + 1) as usize)));
        lemma_pose_unique(keys, time, pose, Pose::Key((at + 1) as usize));
    } else {
        assert(is_pose(keys, time, Pose::Key(at as usize)));
        lemma_pose_unique(keys, time, pose, Pose::Key(at as usize));
    }
}

/// A transform of a single keyframe is static: at every time its one layer
/// is that keyframe.
pub proof fn lemma_single_keyframe_is_static(keys: Seq<KeyframeView>, time: Real, pose: Pose)
    requires
        keys.len() == 1,
        is_pose(keys, time, pose),
        !time.is_nan(),
    ensures
        pose == Pose::Key(0),
{
}

/// Tells whether two transforms have the same steps.
pub fn same_transform(a: &Transform, b: &Transform) -> (r: bool)
    ensures
        r == (a@ == b@),
{
    if a.ops.len() != b.ops.len() {
        return false;
    }
    let mut i: usize = 0;
    while i < a.ops.len()
        invariant
            i <= a.ops.len(),
            a.ops.len() == b.ops.len(),
            forall|j: int| 0 <= j < i ==> a@[j] == b@[j],
        decreases a.ops.len() - i,
    {
        if a.ops[i] != b.ops[i] {
            assert(a@[i as int] != b@[i as int]);
            return false;
        }
        i += 1;
    }
    assert(a@ =~= b@);
    true
}

/// Evaluates a layer of keyframes at a time.
pub fn locate(keys: &Vec<Keyframe>, time: Real) -> (pose: Pose)
    requires
        increasing(keyframe_views(keys@)),
        !time.is_nan(),
    ensures
        is_pose(keyframe_views(keys@), time, pose),
{
    let ghost views = keyframe_views(keys@);
    if keys.len() == 0 {
        return Pose::Identity;
    }
    assert(!views[0].time.is_nan());
    if !keys[0].time.less_than(&time) {
        return Pose::Key(0);
    }
    let mut i: usize = 1;
    while i < keys.len()
        invariant
            1 <= i <= keys.len(),
            views == keyframe_views(keys@),
            increasing(views),
            !time.is_nan(),
            views[i - 1].time.rank() < time.rank(),
        decreases keys.len() - i,
    {
        assert(!views[i as int].time.is_nan());
        if !keys[i].time.less_than(&time) {
            if keys[i].time.same_as(&time) {
                return Pose::Key(i);
            }
            if same_transform(&keys[i - 1].transform, &keys[i].transform) {
                return Pose::Key(i - 1);
            }
            return Pose::Between(i - 1);
        }
        i += 1;
    }
    Pose::Key(keys.len() - 1)
}

impl AnimatedTransform {
    /// Evaluates the transform at a time: each layer, the outermost first.
    pub fn poses(&self, time: Real) -> (r: Vec<Pose>)
        requires
            well_formed(self@),
            !time.is_nan(),
        ensures
            are_poses(self@, time, r@),
    {
        let mut out: Vec<Pose> = Vec::new();
        let mut i: usize = 0;
        while i < self.layers.len()
            invariant
                i <= self.layers.len(),
                well_formed(self@),
                !time.is_nan(),
                out@.len() == i,
                forall|j: int| 0 <= j < i ==> is_pose(#[trigger] self@[j], time, out@[j]),
            decreases self.layers.len() - i,
        {
            assert(increasing(self@[i as int]));
            let pose = locate(&self.layers[i], time);
            out.push(pose);
            i += 1;
        }
        out
    }
}

} // verus!
