//! The branch the recursive radiance estimator takes at one bounce.
//!
//! The estimator's numeric work — adding emitted radiance, attenuating the
//! continued path — happens outside this crate; what is decided here, and
//! verified, is *which* of the three outcomes a cast ray has: the path
//! budget is exhausted or nothing was hit (the background is returned),
//! the surface absorbed the path (its own emission alone is returned), or
//! the path scatters on with one less bounce to spend.

use vstd::prelude::*;

verus! {

/// A linear-radiance color. Each channel is carried as an opaque 64-bit
/// word in whatever encoding the caller fixed; the estimator's decision
/// never reads the channels, it only routes them.
#[derive(Clone, Copy, PartialEq, Eq, Structural, Debug)]
pub struct Radiance {
    pub x: u64,
    pub y: u64,
    pub z: u64,
}

/// What a scene query found for a cast ray, as far as the branch decision
/// needs it: the radiance the hit surface emits at the hit's surface
/// coordinates, and, when the material scatters, the attenuation it
/// applies to the continued path.
#[derive(Clone, Copy, PartialEq, Eq, Structural, Debug)]
pub struct SurfaceInteraction {
    pub emitted: Radiance,
    pub scatter: Option<Radiance>,
}

/// The outcome of one estimator step.
#[derive(Clone, Copy, PartialEq, Eq, Structural, Debug)]
pub enum RadianceStep {
    /// The path ends here and the estimate is `color`.
    Finished { color: Radiance },
    /// The path continues: the estimate is `emitted` plus `attenuation`
    /// times the estimate of the scattered ray, evaluated with
    /// `next_depth` bounces left.
    Scattered { emitted: Radiance, attenuation: Radiance, next_depth: u32 },
}

/// Decides one step of the recursive radiance estimate.
///
/// With the depth budget exhausted the estimate is the background color no
/// matter what the scene query produced — truncation, not an error.  A ray
/// that hit nothing also takes the background.  A hit on a material that
/// does not scatter (an emitter or absorber) ends the path with exactly
/// the surface's own emission and no recursive term.  Otherwise the path
/// scatters, and the depth left for the continuation is exactly one less.
pub fn raycast_step(
    background: Radiance,
    depth: u32,
    hit: Option<SurfaceInteraction>,
) -> (step: RadianceStep)
    ensures
        depth == 0 ==> step == (RadianceStep::Finished { color: background }),
        depth > 0 && hit is None ==> step == (RadianceStep::Finished { color: background }),
        depth > 0 && (hit matches Some(h) && h.scatter is None) ==> step
            == (RadianceStep::Finished { color: hit->Some_0.emitted }),
        depth > 0 && (hit matches Some(h) && h.scatter is Some) ==> step
            == (RadianceStep::Scattered {
                emitted: hit->Some_0.emitted,
                attenuation: hit->Some_0.scatter->Some_0,
                next_depth: (depth - 1) as u32,
            }),
{
    if depth == 0 {
        return RadianceStep::Finished { color: background };
    }
    match hit {
        None => RadianceStep::Finished { color: background },
        Some(interaction) => match interaction.scatter {
            None => RadianceStep::Finished { color: interaction.emitted },
            Some(attenuation) => RadianceStep::Scattered {
                emitted: interaction.emitted,
                attenuation,
                next_depth: depth - 1,
            },
        },
    }
}

} // verus!
