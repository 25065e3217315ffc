//! Turning the client's optional hints into the settings of a solve.
use crate::binary64::{ieee_le, ieee_lt, Binary64};
use crate::protocol::SolveHints;
use vstd::prelude::*;

verus! {

/// The time limit of every solve, in seconds.
pub const SOLVE_TIMEOUT_SECS: u64 = 60;

/// A circular region of the sky, in degrees.
#[derive(Debug, Clone, Copy, PartialEq, Eq, Structural)]
pub struct SkyHint {
    pub ra_deg: Binary64,
    pub dec_deg: Binary64,
    pub radius_deg: Binary64,
}

/// Accepted pixel scales, in arcseconds per pixel.
#[derive(Debug, Clone, Copy, PartialEq, Eq, Structural)]
pub struct ScaleRange {
    pub min_arcsec: Binary64,
    pub max_arcsec: Binary64,
}

/// The settings a solve runs with.
#[derive(Debug, Clone, Copy, PartialEq, Eq, Structural)]
pub struct SolverSettings {
    /// Time limit in seconds.
    pub timeout_secs: u64,
    /// Accepted pixel scales.
    pub scale_range: Option<ScaleRange>,
    /// The region the solution's centre must fall in.
    pub within: Option<SkyHint>,
}

/// The scale window the hints ask for: both ends given, the low end
/// positive, the high end not below it.
pub open spec fn scale_range_of(hints: SolveHints) -> Option<ScaleRange> {
    match (hints.scale_min_arcsec, hints.scale_max_arcsec) {
        (Some(lo), Some(hi)) => if ieee_lt(0, lo.bits) && ieee_le(lo.bits, hi.bits) {
            Some(ScaleRange { min_arcsec: lo, max_arcsec: hi })
        } else {
            None
        },
        _ => None,
    }
}

/// The sky region the hints ask for: centre and radius given, the radius
/// positive.
pub open spec fn sky_region_of(hints: SolveHints) -> Option<SkyHint> {
    match (hints.ra_hint_deg, hints.dec_hint_deg, hints.radius_hint_deg) {
        (Some(ra), Some(dec), Some(radius)) => if ieee_lt(0, radius.bits) {
            Some(SkyHint { ra_deg: ra, dec_deg: dec, radius_deg: radius })
        } else {
            None
        },
        _ => None,
    }
}

/// The settings a solve with these hints runs with. Each group of hints
/// takes effect only when it is complete and valid; the time limit always
/// applies.
pub fn build_solver_config(hints: &SolveHints) -> (cfg: SolverSettings)
    ensures
        cfg.timeout_secs == SOLVE_TIMEOUT_SECS,
        cfg.scale_range == scale_range_of(*hints),
        cfg.within == sky_region_of(*hints),
{
    let scale_range = match (hints.scale_min_arcsec, hints.scale_max_arcsec) {
        (Some(lo), Some(hi)) => {
            if lo.is_positive() && hi.ge(&lo) {
                Some(ScaleRange { min_arcsec: lo, max_arcsec: hi })
            } else {
                None
            }
        },
        _ => None,
    };
    let within = match (hints.ra_hint_deg, hints.dec_hint_deg, hints.radius_hint_deg) {
        (Some(ra), Some(dec), Some(radius)) => {
            if radius.is_positive() {
                Some(SkyHint { ra_deg: ra, dec_deg: dec, radius_deg: radius })
            } else {
                None
            }
        },
        _ => None,
    };
    SolverSettings { timeout_secs: SOLVE_TIMEOUT_SECS, scale_range, within }
}

/// The two groups of hints are independent: the scale window depends on the
/// scale hints alone, and the sky region on the sky hints alone.
pub proof fn lemma_hint_groups_independent(a: SolveHints, b: SolveHints)
    ensures
        a.scale_min_arcsec == b.scale_min_arcsec && a.scale_max_arcsec == b.scale_max_arcsec
            ==> scale_range_of(a) == scale_range_of(b),
        a.ra_hint_deg == b.ra_hint_deg && a.dec_hint_deg == b.dec_hint_deg && a.radius_hint_deg
            == b.radius_hint_deg ==> sky_region_of(a) == sky_region_of(b),
{
}

/// A partial group of hints is ignored: the scale window needs both ends and
/// the sky region needs all three of centre and radius.
pub proof fn lemma_partial_hints_ignored(hints: SolveHints)
    ensures
        hints.scale_min_arcsec is None || hints.scale_max_arcsec is None ==> scale_range_of(
            hints,
        ) is None,
        hints.ra_hint_deg is None || hints.dec_hint_deg is None || hints.radius_hint_deg is None
            ==> sky_region_of(hints) is None,
{
}

/// A scale window that takes effect is ordered and positive at both ends.
pub proof fn lemma_scale_range_ordered(hints: SolveHints)
    ensures
        scale_range_of(hints) matches Some(r) ==> ieee_lt(0, r.min_arcsec.bits) && ieee_lt(
            0,
            r.max_arcsec.bits,
        ) && ieee_le(r.min_arcsec.bits, r.max_arcsec.bits),
{
}

/// A complete sky hint with a positive radius (a bit pattern from the
/// smallest positive value up to positive infinity) always takes effect,
/// whatever the radius, with exactly the centre and radius given.
pub proof fn lemma_positive_radius_takes_effect(
    hints: SolveHints,
    ra: Binary64,
    dec: Binary64,
    radius: Binary64,
)
    requires
        hints.ra_hint_deg == Some(ra),
        hints.dec_hint_deg == Some(dec),
        hints.radius_hint_deg == Some(radius),
        0 < radius.bits <= 0x7ff0_0000_0000_0000,
    ensures
        sky_region_of(hints) == Some(SkyHint { ra_deg: ra, dec_deg: dec, radius_deg: radius }),
{
}

/// A sky region takes effect only from a complete sky hint with a positive
/// radius, and it is that hint.
pub proof fn lemma_sky_region_comes_from_hints(hints: SolveHints)
    ensures
        sky_region_of(hints) matches Some(r) ==> hints.ra_hint_deg == Some(r.ra_deg)
            && hints.dec_hint_deg == Some(r.dec_deg) && hints.radius_hint_deg == Some(r.radius_deg)
            && 0 < r.radius_deg.bits <= 0x7ff0_0000_0000_0000,
{
}

/// Two positive scale bounds (bit patterns up to positive infinity), the
/// low one not above the high one, always take effect as the scale window,
/// with exactly those ends.
pub proof fn lemma_ordered_positive_scales_take_effect(hints: SolveHints, lo: Binary64, hi: Binary64)
    requires
        hints.scale_min_arcsec == Some(lo),
        hints.scale_max_arcsec == Some(hi),
        0 < lo.bits <= hi.bits <= 0x7ff0_0000_0000_0000,
    ensures
        scale_range_of(hints) == Some(ScaleRange { min_arcsec: lo, max_arcsec: hi }),
{
}

/// A scale window takes effect only from two positive scale bounds, the low
/// one not above the high one, and it is those bounds.
pub proof fn lemma_scale_window_comes_from_hints(hints: SolveHints)
    ensures
        scale_range_of(hints) matches Some(r) ==> hints.scale_min_arcsec == Some(r.min_arcsec)
            && hints.scale_max_arcsec == Some(r.max_arcsec) && 0 < r.min_arcsec.bits
            <= r.max_arcsec.bits <= 0x7ff0_0000_0000_0000,
{
}

} // verus!
