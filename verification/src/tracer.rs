//! The recursive tracer.
//!
//! A ray is followed to the nearest surface. There, down to a bounded depth
//! of the recursion, a refracted and a reflected ray are followed in turn,
//! and what they gather is handed to the caller together with the hit, to be
//! weighted and summed. The geometry and the arithmetic on radiance are the
//! caller's. Which rays are followed, which reflectance weights them and
//! whether the medium that the ray crossed absorbs is settled here.

use vstd::prelude::*;
use crate::query::{accepts, computes};

verus! {

/// The depth at which no secondary ray is followed any more.
pub const MAX_DEPTH: u32 = 3;

/// The side of a surface from which a ray reaches it.
#[derive(Clone, Copy, Debug, PartialEq, Eq, Structural)]
pub enum Side {
    /// The ray travels against the surface normal.
    Outside,
    /// The ray travels along the surface normal: it leaves the body.
    Inside,
}

/// The reflectance that weights the reflected ray.
#[derive(Clone, Copy, Debug, PartialEq, Eq, Structural)]
pub enum Reflectance {
    /// The reflectivity that the material states.
    Material,
    /// The reflectance of the interface at the angle of incidence; the
    /// refracted ray carries the rest.
    Fresnel,
    /// All of it: there is no refracted ray.
    Total,
}

/// What the tracer does at a hit.
#[derive(Clone, Copy, Debug, PartialEq, Eq, Structural)]
pub struct Plan {
    /// The side from which the ray came.
    pub side: Side,
    /// Whether any secondary ray is followed.
    pub bounce: bool,
    /// Whether refraction is attempted.
    pub refract: bool,
    /// Whether what was gathered is attenuated by the medium crossed.
    pub absorb: bool,
}

/// What a ray meets at the nearest surface, as far as the caller can tell
/// before any other ray is followed.
pub struct Meeting<R, X> {
    /// What lies at the hit.
    pub hit: X,
    /// Whether the ray travels against the surface normal.
    pub facing: bool,
    /// Whether the reflectivity of the material is above zero.
    pub reflective: bool,
    /// Whether the refractive index of the material is above zero.
    pub refractive: bool,
    /// The refracted ray; none under total internal reflection. It is not
    /// read where no refraction is attempted.
    pub refracted: Option<R>,
    /// Whether the reflectance of the interface, at the angle of incidence,
    /// is above zero. It is read only where there is a refracted ray.
    pub fresnel_reflects: bool,
    /// The reflected ray.
    pub reflected: R,
}

/// A hit with what the rays that left it have gathered.
pub struct Lit<X, C> {
    /// What lies at the hit.
    pub hit: X,
    /// What was decided at the hit.
    pub plan: Plan,
    /// The reflectance that weights the reflected ray; the refracted ray
    /// carries the rest.
    pub reflectance: Reflectance,
    /// What the refracted ray gathered, if one was followed.
    pub refracted: Option<C>,
    /// What the reflected ray gathered, if one was followed.
    pub reflected: Option<C>,
}

/// The side from which a ray comes that does or does not face the normal.
pub open spec fn side_of(facing: bool) -> Side {
    if facing {
        Side::Outside
    } else {
        Side::Inside
    }
}

/// The plan for a hit at recursion depth `depth`, of a ray that does or does
/// not face the normal, on a material that does or does not reflect and
/// refract: rays bounce above the depth bound where the material reflects or
/// refracts, refraction is attempted where they bounce and the material
/// refracts, and the medium absorbs where the ray leaves the body.
pub open spec fn planned(depth: u32, facing: bool, reflective: bool, refractive: bool) -> Plan {
    let bounce = depth < MAX_DEPTH && (reflective || refractive);
    Plan { side: side_of(facing), bounce, refract: bounce && refractive, absorb: !facing }
}

/// The reflectance that applies once it is known whether refraction was
/// attempted and whether it gave a refracted ray.
pub open spec fn reflectance_after(refract: bool, transmitted: bool) -> Reflectance {
    if !refract {
        Reflectance::Material
    } else if transmitted {
        Reflectance::Fresnel
    } else {
        Reflectance::Total
    }
}

/// The plan for what a ray meets at recursion depth `depth`.
pub open spec fn plan_at<R, X>(depth: u32, met: Meeting<R, X>) -> Plan {
    planned(depth, met.facing, met.reflective, met.refractive)
}

/// The refracted ray that is followed: the one that was met, where the plan
/// holds an attempt at refraction.
pub open spec fn followed_through<R, X>(depth: u32, met: Meeting<R, X>) -> Option<R> {
    if plan_at(depth, met).refract {
        met.refracted
    } else {
        None
    }
}

/// The reflectance that weights the reflected ray of what was met.
pub open spec fn reflectance_at<R, X>(depth: u32, met: Meeting<R, X>) -> Reflectance {
    reflectance_after(plan_at(depth, met).refract, met.refracted is Some)
}

/// Whether the reflected ray is followed: where rays bounce at all and the
/// reflectance that applies is above zero.
pub open spec fn reflects<R, X>(depth: u32, met: Meeting<R, X>) -> bool {
    plan_at(depth, met).bounce && match reflectance_at(depth, met) {
        Reflectance::Material => met.reflective,
        Reflectance::Fresnel => met.fresnel_reflects,
        Reflectance::Total => true,
    }
}

/// The levels of recursion that are left at `depth`.
pub open spec fn depth_left(depth: u32) -> nat {
    if depth < MAX_DEPTH {
        (MAX_DEPTH - depth) as nat
    } else {
        0
    }
}

/// The radiance that arrives along `ray` at recursion depth `depth`, where
/// `see` says what a ray meets and `shade` what a lit hit sends back.
///
/// A ray that meets nothing brings `black`. At a hit the refracted ray and
/// the reflected ray are followed one level deeper, each once and only as
/// far as the plan and the reflectance allow, and the hit is shaded with
/// what they bring.
pub open spec fn radiance<R, X, C>(
    ray: R,
    depth: u32,
    see: spec_fn(R) -> Option<Meeting<R, X>>,
    shade: spec_fn(Lit<X, C>) -> C,
    black: C,
) -> C
    decreases depth_left(depth),
{
    match see(ray) {
        None => black,
        Some(met) => shade(
            Lit {
                hit: met.hit,
                plan: plan_at(depth, met),
                reflectance: reflectance_at(depth, met),
                refracted: match followed_through(depth, met) {
                    Some(through) => Some(
                        radiance(through, (depth + 1) as u32, see, shade, black),
                    ),
                    None => None,
                },
                reflected: if reflects(depth, met) {
                    Some(radiance(met.reflected, (depth + 1) as u32, see, shade, black))
                } else {
                    None
                },
            },
        ),
    }
}

/// The side from which a ray comes: outside where it travels against the
/// surface normal, inside where it travels along it.
pub fn side(facing: bool) -> (s: Side)
    ensures
        s == side_of(facing),
{
    if facing {
        Side::Outside
    } else {
        Side::Inside
    }
}

/// Decides what the tracer does at a hit. `facing` says whether the ray
/// travels against the stored normal, `reflective` whether the material's
/// reflectivity is above zero, `refractive` whether its refractive index is.
pub fn plan(depth: u32, facing: bool, reflective: bool, refractive: bool) -> (p: Plan)
    ensures
        p == planned(depth, facing, reflective, refractive),
{
    let bounce = depth < MAX_DEPTH && (reflective || refractive);
    Plan { side: side(facing), bounce, refract: bounce && refractive, absorb: !facing }
}

impl Plan {
    /// The reflectance that weights the reflected ray, once the attempt at
    /// refraction, if the plan holds one, has or has not given a refracted
    /// ray. Without an attempt `transmitted` is not read.
    pub fn reflectance(&self, transmitted: bool) -> (r: Reflectance)
        ensures
            r == reflectance_after(self.refract, transmitted),
    {
        if !self.refract {
            Reflectance::Material
        } else if transmitted {
            Reflectance::Fresnel
        } else {
            Reflectance::Total
        }
    }
}

/// Traces `ray` at recursion depth `depth`. `see` says what a ray meets at
/// the nearest surface, `shade` weights and sums what was gathered at a hit,
/// and `black` is what a ray brings that meets nothing.
pub fn trace<R, X, C: Copy, S: Fn(&R) -> Option<Meeting<R, X>>, H: Fn(&Lit<X, C>) -> C>(
    ray: &R,
    depth: u32,
    see: &S,
    shade: &H,
    black: C,
) -> (r: C)
    requires
        accepts(*see),
        accepts(*shade),
    ensures
        forall|seen: spec_fn(R) -> Option<Meeting<R, X>>, shaded: spec_fn(Lit<X, C>) -> C|
            #[trigger] computes(*see, seen) && #[trigger] computes(*shade, shaded) ==> r
                == radiance(*ray, depth, seen, shaded, black),
    decreases depth_left(depth),
{
    match see(ray) {
        None => black,
        Some(met) => {
            let plan = plan(depth, met.facing, met.reflective, met.refractive);
            let transmitted = plan.refract && met.refracted.is_some();
            let reflectance = plan.reflectance(transmitted);
            let reflects = plan.bounce && match reflectance {
                Reflectance::Material => met.reflective,
                Reflectance::Fresnel => met.fresnel_reflects,
                Reflectance::Total => true,
            };
            let refracted = if plan.refract {
                match &met.refracted {
                    Some(through) => Some(trace(through, depth + 1, see, shade, black)),
                    None => None,
                }
            } else {
                None
            };
            let reflected = if reflects {
                Some(trace(&met.reflected, depth + 1, see, shade, black))
            } else {
                None
            };
            shade(&Lit { hit: met.hit, plan, reflectance, refracted, reflected })
        },
    }
}

/// A ray that meets nothing brings black, at any depth.
pub proof fn lemma_nothing_met_is_black<R, X, C>(
    ray: R,
    depth: u32,
    see: spec_fn(R) -> Option<Meeting<R, X>>,
    shade: spec_fn(Lit<X, C>) -> C,
    black: C,
)
    requires
        see(ray) is None,
    ensures
        radiance(ray, depth, see, shade, black) == black,
{
}

/// At the depth bound, and at any depth on a material that neither reflects
/// nor refracts, the hit is shaded without any other ray being followed.
pub proof fn lemma_recursion_ends<R, X, C>(
    ray: R,
    depth: u32,
    see: spec_fn(R) -> Option<Meeting<R, X>>,
    shade: spec_fn(Lit<X, C>) -> C,
    black: C,
)
    requires
        see(ray) is Some,
        depth >= MAX_DEPTH || (!see(ray)->0.reflective && !see(ray)->0.refractive),
    ensures
        !plan_at(depth, see(ray)->0).bounce,
        radiance(ray, depth, see, shade, black) == shade(
            Lit {
                hit: see(ray)->0.hit,
                plan: plan_at(depth, see(ray)->0),
                reflectance: Reflectance::Material,
                refracted: None,
                reflected: None,
            },
        ),
{
}

/// Where refraction gives a ray, the hit is shaded once, with what the
/// refracted ray gathered and, where the reflectance of the interface is
/// above zero, with what the reflected ray gathered; the one reflectance of
/// the interface splits the two.
pub proof fn lemma_refraction_splits_once<R, X, C>(
    ray: R,
    depth: u32,
    see: spec_fn(R) -> Option<Meeting<R, X>>,
    shade: spec_fn(Lit<X, C>) -> C,
    black: C,
)
    requires
        see(ray) is Some,
        plan_at(depth, see(ray)->0).refract,
        see(ray)->0.refracted is Some,
    ensures
        ({
            let met = see(ray)->0;
            let deeper = (depth + 1) as u32;
            radiance(ray, depth, see, shade, black) == shade(
                Lit {
                    hit: met.hit,
                    plan: plan_at(depth, met),
                    reflectance: Reflectance::Fresnel,
                    refracted: Some(radiance(met.refracted->0, deeper, see, shade, black)),
                    reflected: if met.fresnel_reflects {
                        Some(radiance(met.reflected, deeper, see, shade, black))
                    } else {
                        None
                    },
                },
            )
        }),
{
}

/// Under total internal reflection the reflected ray alone is followed, and
/// it carries everything.
pub proof fn lemma_total_reflection<R, X, C>(
    ray: R,
    depth: u32,
    see: spec_fn(R) -> Option<Meeting<R, X>>,
    shade: spec_fn(Lit<X, C>) -> C,
    black: C,
)
    requires
        see(ray) is Some,
        plan_at(depth, see(ray)->0).refract,
        see(ray)->0.refracted is None,
    ensures
        ({
            let met = see(ray)->0;
            radiance(ray, depth, see, shade, black) == shade(
                Lit {
                    hit: met.hit,
                    plan: plan_at(depth, met),
                    reflectance: Reflectance::Total,
                    refracted: None,
                    reflected: Some(
                        radiance(met.reflected, (depth + 1) as u32, see, shade, black),
                    ),
                },
            )
        }),
{
}

} // verus!
