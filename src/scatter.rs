use vstd::prelude::*;
use crate::surface::Facing;

verus! {

/// Where a diffuse surface sends a scattered ray.
#[derive(Debug, Clone, Copy, PartialEq, Eq, Structural)]
pub enum DiffuseDirection {
    /// The normal plus a random unit vector.
    Jittered,
    /// The normal alone, in place of a jittered direction that is nearly zero.
    Normal,
}

/// What a dielectric surface does with a ray.
#[derive(Debug, Clone, Copy, PartialEq, Eq, Structural)]
pub enum Bend {
    Reflect,
    Refract,
}

/// The refraction ratio a dielectric uses.
#[derive(Debug, Clone, Copy, PartialEq, Eq, Structural)]
pub enum RatioChoice {
    /// `1 / refractive_index`: the ray enters the medium.
    Entering,
    /// `refractive_index`: the ray leaves the medium.
    Leaving,
}

/// The diffuse rule: a nearly zero jittered direction is replaced by the
/// normal, so that no scattered ray has a degenerate direction.
pub fn diffuse_direction(jittered_near_zero: bool) -> (r: DiffuseDirection)
    ensures
        r == DiffuseDirection::Normal <==> jittered_near_zero,
{
    if jittered_near_zero {
        DiffuseDirection::Normal
    } else {
        DiffuseDirection::Jittered
    }
}

/// The refraction ratio for the side struck.
pub fn ratio_choice(side: Facing) -> (r: RatioChoice)
    ensures
        r == RatioChoice::Entering <==> side == Facing::Front,
{
    match side {
        Facing::Front => RatioChoice::Entering,
        Facing::Back => RatioChoice::Leaving,
    }
}

/// The dielectric rule: reflect when Snell's law has no solution, or when the
/// Schlick reflectance beats a uniform draw; refract otherwise.
pub open spec fn bend_rule(cannot_refract: bool, reflectance_beats_draw: bool) -> Bend {
    if cannot_refract || reflectance_beats_draw {
        Bend::Reflect
    } else {
        Bend::Refract
    }
}

/// What a dielectric does, given whether `ratio * sin_theta > 1` and, where
/// refraction is possible, whether the reflectance beats the draw.
pub fn dielectric_bend(cannot_refract: bool, reflectance_beats_draw: bool) -> (r: Bend)
    ensures
        r == bend_rule(cannot_refract, reflectance_beats_draw),
{
    if cannot_refract || reflectance_beats_draw {
        Bend::Reflect
    } else {
        Bend::Refract
    }
}

/// Total internal reflection always reflects, whatever the draw.
pub proof fn lemma_total_internal_reflection_reflects(reflectance_beats_draw: bool)
    ensures
        bend_rule(true, reflectance_beats_draw) == Bend::Reflect,
{
}

} // verus!
