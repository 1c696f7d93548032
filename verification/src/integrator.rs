//! The integrator that a scene is rendered with.

use crate::error::{Key, Kind, LoadError, Part};
use crate::error::fault;
use crate::json::{require_text, require_unsigned, required_text, required_unsigned, same_text};
use crate::json::Json;
use vstd::prelude::*;

verus! {

/// How light transport is estimated, with the bounds on the depth of a path.
#[derive(Clone, Copy, Debug, PartialEq, Eq)]
pub enum Integrator {
    /// Path tracing: no path ends by chance before `min_depth`, and none
    /// goes on beyond `max_depth`.
    Path { min_depth: u32, max_depth: u32 },
    /// Recursive tracing of specular bounces, at most `max_depth` of them.
    Whitted { max_depth: u32 },
}

/// What an integrator does after a hit.
#[derive(Clone, Copy, Debug, PartialEq, Eq)]
pub enum Bounce {
    /// The path ends at this hit.
    End,
    /// The path goes on. A Whitted integrator follows one ray for each
    /// specular term of the surface.
    Go,
    /// The path goes on if Russian roulette lets it, and is then weighted by
    /// one over the probability of going on.
    Roulette,
}

impl Integrator {
    /// The depth beyond which no path goes.
    pub open spec fn depth_bound(self) -> u32 {
        match self {
            Integrator::Path { max_depth, .. } => max_depth,
            Integrator::Whitted { max_depth } => max_depth,
        }
    }

    /// What the integrator does after a hit at a depth, on a surface with
    /// the given number of specular terms. At the greatest depth every path
    /// ends. Before it, a path tracer goes on, by roulette once the depth has
    /// reached `min_depth`; a Whitted integrator goes on where the surface
    /// has a specular term.
    pub open spec fn bounce(self, depth: u32, specular_terms: usize) -> Bounce {
        match self {
            Integrator::Path { min_depth, max_depth } => if depth >= max_depth {
                Bounce::End
            } else if depth >= min_depth {
                Bounce::Roulette
            } else {
                Bounce::Go
            },
            Integrator::Whitted { max_depth } => if depth >= max_depth || specular_terms == 0 {
                Bounce::End
            } else {
                Bounce::Go
            },
        }
    }

    /// Tells the depth beyond which no path goes.
    pub fn max_depth(&self) -> (r: u32)
        ensures
            r == self.depth_bound(),
    {
        match self {
            Integrator::Path { max_depth, .. } => *max_depth,
            Integrator::Whitted { max_depth } => *max_depth,
        }
    }

    /// Decides what follows a hit at a depth, on a surface with the given
    /// number of specular terms. A path that goes on is below the greatest
    /// depth.
    pub fn after_hit(&self, depth: u32, specular_terms: usize) -> (r: Bounce)
        ensures
            r == self.bounce(depth, specular_terms),
            !(r is End) ==> depth < self.depth_bound(),
    {
        match self {
            Integrator::Path { min_depth, max_depth } => {
                if depth >= *max_depth {
                    Bounce::End
                } else if depth >= *min_depth {
                    Bounce::Roulette
                } else {
                    Bounce::Go
                }
            },
            Integrator::Whitted { max_depth } => {
                if depth >= *max_depth || specular_terms == 0 {
                    Bounce::End
                } else {
                    Bounce::Go
                }
            },
        }
    }
}

/// The depths of a path that starts at depth zero and goes on one hit after
/// the other never pass the greatest depth: after `hits` hits that all let
/// the path go on, the depth is `hits` and at most the bound.
pub proof fn lemma_depth_is_bounded(integrator: Integrator, hits: u32, terms: spec_fn(u32) -> usize)
    requires
        forall|depth: u32| depth < hits ==> !(#[trigger] integrator.bounce(depth, terms(depth)) is End),
    ensures
        hits <= integrator.depth_bound(),
{
    if hits > 0 {
        let last = (hits - 1) as u32;
        assert(!(integrator.bounce(last, terms(last)) is End));
    }
}

/// A count of a document as a depth: its low 32 bits.
pub open spec fn depth_of(n: u64) -> u32 {
    n as u32
}

/// Takes a count of a document as a depth.
pub fn to_depth(n: u64) -> (r: u32)
    ensures
        r == depth_of(n),
{
    #[verifier::truncate]
    (n as u32)
}

/// The integrator that a value states: its `type`, then the depths that the
/// type asks for. A path tracer has a `min_depth` and a `max_depth`; the depth
/// of a Whitted integrator is read from `min_depth`.
pub open spec fn integrator_of(elem: Json) -> Result<Integrator, LoadError> {
    match required_text(elem, Part::Integrator, Key::Type) {
        Err(e) => Err(e),
        Ok(ty) => if ty == "pathtracer"@ {
            match required_unsigned(elem, Part::Integrator, Key::MinDepth) {
                Err(e) => Err(e),
                Ok(min_depth) => match required_unsigned(elem, Part::Integrator, Key::MaxDepth) {
                    Err(e) => Err(e),
                    Ok(max_depth) => Ok(
                        Integrator::Path {
                            min_depth: depth_of(min_depth),
                            max_depth: depth_of(max_depth),
                        },
                    ),
                },
            }
        } else if ty == "whitted"@ {
            match required_unsigned(elem, Part::Integrator, Key::MinDepth) {
                Err(e) => Err(e),
                Ok(depth) => Ok(Integrator::Whitted { max_depth: depth_of(depth) }),
            }
        } else {
            Err(fault(Part::Integrator, Key::Type, Kind::Unrecognized))
        },
    }
}

/// Reads an integrator.
pub fn load_integrator(elem: &Json) -> (r: Result<Integrator, LoadError>)
    ensures
        r == integrator_of(*elem),
{
    let ty = require_text(elem, Part::Integrator, Key::Type)?;
    if same_text(ty, "pathtracer") {
        let min_depth = to_depth(require_unsigned(elem, Part::Integrator, Key::MinDepth)?);
        let max_depth = to_depth(require_unsigned(elem, Part::Integrator, Key::MaxDepth)?);
        Ok(Integrator::Path { min_depth, max_depth })
    } else if same_text(ty, "whitted") {
        let depth = to_depth(require_unsigned(elem, Part::Integrator, Key::MinDepth)?);
        Ok(Integrator::Whitted { max_depth: depth })
    } else {
        Err(LoadError::at(Part::Integrator, Key::Type, Kind::Unrecognized))
    }
}

} // verus!
