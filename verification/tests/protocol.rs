use zodiacal_web::protocol::{AppSocket, JobStatus, SolveHints, SolveSocket, SubmitJobResponse};

#[test]
fn solve_hints_default_is_all_none() {
    let hints = SolveHints::default();
    assert_eq!(hints.scale_min_arcsec, None);
    assert_eq!(hints.scale_max_arcsec, None);
    assert_eq!(hints.ra_hint_deg, None);
    assert_eq!(hints.dec_hint_deg, None);
    assert_eq!(hints.radius_hint_deg, None);
}

#[test]
fn socket_paths() {
    assert_eq!(AppSocket::path(), "/ws");
    assert_eq!(SolveSocket::path(), "/ws/solve");
}

#[test]
fn accepted_upload_is_pending() {
    let id = uuid::Uuid::new_v4();
    let r = SubmitJobResponse::accepted(id);
    assert_eq!(r.job_id, id);
    assert_eq!(r.status, JobStatus::Pending);
}
