//! Scattering terms and their composition.

use crate::scalar::Real;
use crate::values::Colorf;
use vstd::prelude::*;

verus! {

/// The Fresnel term of a boundary between two dielectrics, by their indices
/// of refraction: that of the side that light comes from, and that of the
/// side that it goes to.
#[derive(Clone, Copy, Debug, PartialEq, Eq)]
pub struct Dielectric {
    pub eta_i: Real,
    pub eta_t: Real,
}

/// Whether a term scatters light back into the hemisphere that it came from,
/// or through the surface.
#[derive(Clone, Copy, Debug, PartialEq, Eq, Structural)]
pub enum Side {
    Reflection,
    Transmission,
}

/// How a term spreads the light that it scatters.
#[derive(Clone, Copy, Debug, PartialEq, Eq, Structural)]
pub enum Lobe {
    Diffuse,
    Glossy,
    Specular,
}

/// An elementary scattering term.
#[derive(Clone, Copy, Debug, PartialEq, Eq)]
pub enum BxDF {
    /// Reflection in the mirror direction, weighted by a Fresnel term.
    SpecularReflection { reflectance: Colorf, fresnel: Dielectric },
    /// Refraction through the surface, weighted by a Fresnel term.
    SpecularTransmission { transmission: Colorf, fresnel: Dielectric },
}

impl BxDF {
    /// The side that the term scatters to.
    pub open spec fn side(self) -> Side {
        match self {
            BxDF::SpecularReflection { .. } => Side::Reflection,
            BxDF::SpecularTransmission { .. } => Side::Transmission,
        }
    }

    /// How the term spreads light.
    pub open spec fn lobe(self) -> Lobe {
        match self {
            BxDF::SpecularReflection { .. } => Lobe::Specular,
            BxDF::SpecularTransmission { .. } => Lobe::Specular,
        }
    }

    /// Tells the side that the term scatters to.
    pub fn scatters_to(&self) -> (r: Side)
        ensures
            r == self.side(),
    {
        match self {
            BxDF::SpecularReflection { .. } => Side::Reflection,
            BxDF::SpecularTransmission { .. } => Side::Transmission,
        }
    }

    /// Tells how the term spreads light.
    pub fn spreads(&self) -> (r: Lobe)
        ensures
            r == self.lobe(),
    {
        match self {
            BxDF::SpecularReflection { .. } => Lobe::Specular,
            BxDF::SpecularTransmission { .. } => Lobe::Specular,
        }
    }
}

/// The side that light is scattered to between two directions: reflection
/// where both lie in one hemisphere about the surface, transmission where
/// they lie in opposite ones.
pub open spec fn side_between(same_hemisphere: bool) -> Side {
    if same_hemisphere {
        Side::Reflection
    } else {
        Side::Transmission
    }
}

/// The places, in their order, of the terms among the first `n` that scatter
/// to a side.
pub open spec fn matching(terms: Seq<BxDF>, side: Side, n: nat) -> Seq<usize>
    decreases n,
{
    if n == 0 || n > terms.len() {
        Seq::empty()
    } else if terms[n - 1].side() == side {
        matching(terms, side, (n - 1) as nat).push((n - 1) as usize)
    } else {
        matching(terms, side, (n - 1) as nat)
    }
}

/// The number of specular terms among the first `n`.
pub open spec fn specular_among(terms: Seq<BxDF>, n: nat) -> nat
    decreases n,
{
    if n == 0 || n > terms.len() {
        0
    } else if terms[n - 1].lobe() == Lobe::Specular {
        specular_among(terms, (n - 1) as nat) + 1
    } else {
        specular_among(terms, (n - 1) as nat)
    }
}

/// The term that a draw picks for sampling: with no terms none, else the one
/// at the place that the draw leaves when it is divided by their number, so
/// that draws that are spread evenly pick every term equally often.
pub open spec fn picked(terms: Seq<BxDF>, draw: usize) -> Option<usize> {
    if terms.len() == 0 {
        None
    } else {
        Some((draw as int % terms.len() as int) as usize)
    }
}

/// The scattering at a point of a surface: an ordered collection of terms,
/// and the index of refraction of the medium behind the surface.
#[derive(Clone, Debug, PartialEq, Eq)]
pub struct BSDF {
    pub bxdfs: Vec<BxDF>,
    pub eta: Real,
}

/// The scattering at a point as contracts speak of it.
pub struct BSDFView {
    pub bxdfs: Seq<BxDF>,
    pub eta: Real,
}

impl View for BSDF {
    type V = BSDFView;

    open spec fn view(&self) -> BSDFView {
        BSDFView { bxdfs: self.bxdfs@, eta: self.eta }
    }
}

impl BSDF {
    /// The scattering of the given terms.
    pub fn new(bxdfs: &Vec<BxDF>, eta: Real) -> (r: BSDF)
        ensures
            r@ == (BSDFView { bxdfs: bxdfs@, eta }),
    {
        let mut terms: Vec<BxDF> = Vec::new();
        let mut i: usize = 0;
        while i < bxdfs.len()
            invariant
                i <= bxdfs.len(),
                terms@ == bxdfs@.take(i as int),
            decreases bxdfs.len() - i,
        {
            terms.push(bxdfs[i]);
            assert(terms@ =~= bxdfs@.take(i as int + 1));
            i += 1;
        }
        assert(bxdfs@.take(i as int) =~= bxdfs@);
        BSDF { bxdfs: terms, eta }
    }

    /// The number of terms.
    pub fn num_bxdfs(&self) -> (r: usize)
        ensures
            r == self@.bxdfs.len(),
    {
        self.bxdfs.len()
    }

    /// The number of specular terms.
    pub fn num_specular(&self) -> (r: usize)
        ensures
            r == specular_among(self@.bxdfs, self@.bxdfs.len()),
    {
        let mut count: usize = 0;
        let mut i: usize = 0;
        while i < self.bxdfs.len()
            invariant
                i <= self.bxdfs.len(),
                count <= i,
                count == specular_among(self.bxdfs@, i as nat),
            decreases self.bxdfs.len() - i,
        {
            if self.bxdfs[i].spreads() == Lobe::Specular {
                count += 1;
            }
            i += 1;
        }
        count
    }

    /// The terms whose contributions are added up for a pair of directions:
    /// the reflecting terms where both directions lie in one hemisphere, the
    /// transmitting terms where they do not. They are told by their places,
    /// in their order.
    pub fn terms_between(&self, same_hemisphere: bool) -> (r: Vec<usize>)
        ensures
            r@ == matching(self@.bxdfs, side_between(same_hemisphere), self@.bxdfs.len()),
    {
        let side = if same_hemisphere {
            Side::Reflection
        } else {
            Side::Transmission
        };
        let mut places: Vec<usize> = Vec::new();
        let mut i: usize = 0;
        while i < self.bxdfs.len()
            invariant
                i <= self.bxdfs.len(),
                side == side_between(same_hemisphere),
                places@ == matching(self.bxdfs@, side, i as nat),
            decreases self.bxdfs.len() - i,
        {
            if self.bxdfs[i].scatters_to() == side {
                places.push(i);
            }
            i += 1;
        }
        places
    }

    /// Picks the term to sample by a draw. With no terms there is none to
    /// pick, and nothing is scattered.
    pub fn pick(&self, draw: usize) -> (r: Option<usize>)
        ensures
            r == picked(self@.bxdfs, draw),
            r matches Some(at) ==> at < self@.bxdfs.len(),
    {
        if self.bxdfs.len() == 0 {
            None
        } else {
            Some(draw % self.bxdfs.len())
        }
    }
}

/// Every place that `matching` tells is the place of a term that scatters to
/// the side, and the place of every such term is told.
pub proof fn lemma_matching_exact(terms: Seq<BxDF>, side: Side, n: nat)
    requires
        n <= terms.len() <= usize::MAX,
    ensures
        forall|k: int|
            0 <= k < matching(terms, side, n).len() ==> {
                let at = #[trigger] matching(terms, side, n)[k];
                0 <= at < n && terms[at as int].side() == side
            },
        forall|at: int|
            0 <= at < n && (#[trigger] terms[at]).side() == side ==> matching(
                terms,
                side,
                n,
            ).contains(at as usize),
    decreases n,
{
    if n > 0 {
        lemma_matching_exact(terms, side, (n - 1) as nat);
        let earlier = matching(terms, side, (n - 1) as nat);
        let now = matching(terms, side, n);
        assert forall|k: int| 0 <= k < now.len() implies {
            let at = #[trigger] now[k];
            0 <= at < n && terms[at as int].side() == side
        } by {
            if k < earlier.len() {
                assert(now[k] == earlier[k]);
            }
        }
        assert forall|at: int| 0 <= at < n && (#[trigger] terms[at]).side() == side implies now.contains(
            at as usize,
        ) by {
            if at < n - 1 {
                assert(earlier.contains(at as usize));
                let k = choose|k: int| 0 <= k < earlier.len() && earlier[k] == at as usize;
                assert(now[k] == at as usize);
            } else {
                assert(now[now.len() - 1] == at as usize);
            }
        }
    }
}

} // verus!
