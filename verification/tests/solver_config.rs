use zodiacal_web::binary64::Binary64;
use zodiacal_web::protocol::SolveHints;
use zodiacal_web::solver_config::{build_solver_config, ScaleRange, SOLVE_TIMEOUT_SECS};

fn b(x: f64) -> Binary64 {
    Binary64::from_bits(x.to_bits())
}

fn f(x: Binary64) -> f64 {
    f64::from_bits(x.to_bits())
}

#[test]
fn build_solver_config_no_hints() {
    let cfg = build_solver_config(&SolveHints::default());
    assert_eq!(cfg.scale_range, None);
    assert!(cfg.within.is_none());
    assert_eq!(cfg.timeout_secs, 60);
    assert_eq!(SOLVE_TIMEOUT_SECS, 60);
}

#[test]
fn build_solver_config_scale_pair() {
    let hints = SolveHints {
        scale_min_arcsec: Some(b(0.1)),
        scale_max_arcsec: Some(b(0.2)),
        ..Default::default()
    };
    let cfg = build_solver_config(&hints);
    assert_eq!(cfg.scale_range, Some(ScaleRange { min_arcsec: b(0.1), max_arcsec: b(0.2) }));
    assert!(cfg.within.is_none());
}

#[test]
fn build_solver_config_partial_scale_ignored() {
    // Only one of min/max: ignored
    let hints = SolveHints { scale_min_arcsec: Some(b(0.1)), ..Default::default() };
    assert_eq!(build_solver_config(&hints).scale_range, None);
}

#[test]
fn build_solver_config_invalid_scale_ignored() {
    let hints = SolveHints {
        scale_min_arcsec: Some(b(0.5)),
        scale_max_arcsec: Some(b(0.1)), // backwards
        ..Default::default()
    };
    assert_eq!(build_solver_config(&hints).scale_range, None);
}

#[test]
fn build_solver_config_sky_region() {
    let hints = SolveHints {
        ra_hint_deg: Some(b(213.5)),
        dec_hint_deg: Some(b(-55.8)),
        radius_hint_deg: Some(b(1.0)),
        ..Default::default()
    };
    let cfg = build_solver_config(&hints);
    assert!(cfg.within.is_some());
    let region = cfg.within.unwrap();
    // 1 deg radius, in degrees here; the solver converts it to radians
    assert!((f(region.radius_deg).to_radians() - 1.0_f64.to_radians()).abs() < 1e-12);
    assert_eq!(f(region.ra_deg), 213.5);
    assert_eq!(f(region.dec_deg), -55.8);
}

#[test]
fn build_solver_config_partial_sky_ignored() {
    // Missing radius: no region
    let hints = SolveHints {
        ra_hint_deg: Some(b(213.5)),
        dec_hint_deg: Some(b(-55.8)),
        ..Default::default()
    };
    assert!(build_solver_config(&hints).within.is_none());
}

#[test]
fn scale_range_needs_positive_low_end() {
    for lo in [0.0, -0.0, -0.1, f64::NAN] {
        let hints = SolveHints {
            scale_min_arcsec: Some(b(lo)),
            scale_max_arcsec: Some(b(0.2)),
            ..Default::default()
        };
        assert_eq!(build_solver_config(&hints).scale_range, None, "{lo}");
    }
}

#[test]
fn scale_range_allows_equal_ends() {
    let hints = SolveHints {
        scale_min_arcsec: Some(b(0.3)),
        scale_max_arcsec: Some(b(0.3)),
        ..Default::default()
    };
    assert_eq!(
        build_solver_config(&hints).scale_range,
        Some(ScaleRange { min_arcsec: b(0.3), max_arcsec: b(0.3) })
    );
}

#[test]
fn sky_region_needs_positive_radius() {
    for radius in [0.0, -0.0, -1.0, f64::NAN] {
        let hints = SolveHints {
            ra_hint_deg: Some(b(10.0)),
            dec_hint_deg: Some(b(20.0)),
            radius_hint_deg: Some(b(radius)),
            ..Default::default()
        };
        assert!(build_solver_config(&hints).within.is_none(), "{radius}");
    }
}

#[test]
fn hint_groups_are_independent() {
    let hints = SolveHints {
        scale_min_arcsec: Some(b(0.1)),
        scale_max_arcsec: Some(b(0.2)),
        ra_hint_deg: Some(b(10.0)),
        dec_hint_deg: Some(b(20.0)),
        radius_hint_deg: Some(b(0.0)),
    };
    let cfg = build_solver_config(&hints);
    assert!(cfg.scale_range.is_some());
    assert!(cfg.within.is_none());
}
