//! Specular glass: a thin surface that reflects and transmits, and absorbs
//! nothing.

use crate::bxdf::{BSDFView, BxDF, Dielectric, Side, BSDF};
use crate::bxdf::{matching, picked};
use crate::scalar::{Real, ONE_BITS};
use crate::values::Colorf;
use vstd::prelude::*;

verus! {

/// The terms of a glass: a specular reflection unless the colour of reflected
/// light is black, then a specular transmission unless the colour of
/// transmitted light is black. Both are weighted by the Fresnel term of the
/// boundary between a medium of index one and the glass.
pub open spec fn glass_terms(reflect: Colorf, transmit: Colorf, eta: Real) -> Seq<BxDF> {
    let fresnel = Dielectric { eta_i: Real { bits: ONE_BITS }, eta_t: eta };
    let reflection = if reflect.black() {
        Seq::<BxDF>::empty()
    } else {
        seq![BxDF::SpecularReflection { reflectance: reflect, fresnel }]
    };
    if transmit.black() {
        reflection
    } else {
        reflection.push(BxDF::SpecularTransmission { transmission: transmit, fresnel })
    }
}

/// The Glass material describes specularly transmissive and reflective glass.
#[derive(Clone, Debug, PartialEq, Eq)]
pub struct Glass {
    bxdfs: Vec<BxDF>,
    eta: Real,
}

/// A glass as contracts speak of it.
pub struct GlassView {
    pub bxdfs: Seq<BxDF>,
    pub eta: Real,
}

impl View for Glass {
    type V = GlassView;

    closed spec fn view(&self) -> GlassView {
        GlassView { bxdfs: self.bxdfs@, eta: self.eta }
    }
}

impl Glass {
    /// Create the glass material with the desired color and index of
    /// refraction.
    /// `reflect`: color of reflected light
    /// `transmit`: color of transmitted light
    /// `eta`: refractive index of the material
    pub fn new(reflect: &Colorf, transmit: &Colorf, eta: Real) -> (r: Glass)
        ensures
            r@ == (GlassView { bxdfs: glass_terms(*reflect, *transmit, eta), eta }),
    {
        let mut bxdfs: Vec<BxDF> = Vec::new();
        let fresnel = Dielectric { eta_i: Real::one(), eta_t: eta };
        if !reflect.is_black() {
            bxdfs.push(BxDF::SpecularReflection { reflectance: *reflect, fresnel });
        }
        if !transmit.is_black() {
            bxdfs.push(BxDF::SpecularTransmission { transmission: *transmit, fresnel });
        }
        assert(bxdfs@ =~= glass_terms(*reflect, *transmit, eta));
        Glass { bxdfs, eta }
    }

    /// The scattering of the glass at a point of its surface.
    pub fn bsdf(&self) -> (r: BSDF)
        ensures
            r@ == (BSDFView { bxdfs: self@.bxdfs, eta: self@.eta }),
    {
        BSDF::new(&self.bxdfs, self.eta)
    }

    /// The terms of the glass.
    pub fn terms(&self) -> (r: &Vec<BxDF>)
        ensures
            r@ == self@.bxdfs,
    {
        &self.bxdfs
    }

    /// The index of refraction of the glass.
    pub fn eta(&self) -> (r: Real)
        ensures
            r == self@.eta,
    {
        self.eta
    }
}

/// A glass whose colours of reflected and of transmitted light are both black
/// has no term. So between any two directions no term contributes, whichever
/// hemispheres they lie in, and no draw picks a term to sample.
pub proof fn lemma_black_glass_scatters_nothing(
    reflect: Colorf,
    transmit: Colorf,
    eta: Real,
    side: Side,
    draw: usize,
)
    requires
        reflect.black(),
        transmit.black(),
    ensures
        glass_terms(reflect, transmit, eta).len() == 0,
        matching(
            glass_terms(reflect, transmit, eta),
            side,
            glass_terms(reflect, transmit, eta).len(),
        ) == Seq::<usize>::empty(),
        picked(glass_terms(reflect, transmit, eta), draw) is None,
{
}

/// A glass has at most two terms; a reflection comes before a transmission,
/// and each is specular and weighted for a boundary that light enters from a
/// medium of index one.
pub proof fn lemma_glass_terms(reflect: Colorf, transmit: Colorf, eta: Real)
    ensures
        glass_terms(reflect, transmit, eta).len() == (if reflect.black() {
            0nat
        } else {
            1nat
        }) + (if transmit.black() {
            0nat
        } else {
            1nat
        }),
        !reflect.black() ==> glass_terms(reflect, transmit, eta)[0]
            == (BxDF::SpecularReflection {
            reflectance: reflect,
            fresnel: Dielectric { eta_i: Real { bits: ONE_BITS }, eta_t: eta },
        }),
        !transmit.black() ==> glass_terms(reflect, transmit, eta).last()
            == (BxDF::SpecularTransmission {
            transmission: transmit,
            fresnel: Dielectric { eta_i: Real { bits: ONE_BITS }, eta_t: eta },
        }),
{
}

} // verus!
