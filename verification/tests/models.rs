use zodiacal_web::binary64::Binary64;
use zodiacal_web::models::{parse_status, status_db_name, Job, JobUpdate, NewJob};
use zodiacal_web::protocol::{self, JobStatus, SolveResult};

fn b(x: f64) -> Binary64 {
    Binary64::from_bits(x.to_bits())
}

fn row(status: &str, with_result: bool) -> Job {
    let now = chrono::DateTime::from_timestamp(1_700_000_000, 0).unwrap().naive_utc();
    let v = |x: f64| if with_result { Some(b(x)) } else { None };
    Job {
        id: uuid::Uuid::from_u128(42),
        original_filename: Some("andromeda.fits".to_string()),
        status: status.to_string(),
        ra_deg: v(10.5),
        dec_deg: v(41.2),
        orientation_deg: v(3.0),
        pixel_scale_arcsec: v(1.5),
        field_width_deg: v(2.0),
        field_height_deg: v(1.25),
        error_message: None,
        created_at: now,
        updated_at: now,
    }
}

fn expected_result() -> SolveResult {
    SolveResult {
        ra_deg: b(10.5),
        dec_deg: b(41.2),
        orientation_deg: b(3.0),
        pixel_scale_arcsec: b(1.5),
        field_width_deg: b(2.0),
        field_height_deg: b(1.25),
    }
}

#[test]
fn status_names_round_trip() {
    for s in [JobStatus::Pending, JobStatus::Solving, JobStatus::Solved, JobStatus::Failed] {
        assert_eq!(parse_status(status_db_name(s)), s);
    }
    assert_eq!(status_db_name(JobStatus::Pending), "pending");
    assert_eq!(status_db_name(JobStatus::Solving), "solving");
    assert_eq!(status_db_name(JobStatus::Solved), "solved");
    assert_eq!(status_db_name(JobStatus::Failed), "failed");
}

#[test]
fn unknown_status_reads_as_failed() {
    assert_eq!(parse_status("weird"), JobStatus::Failed);
    assert_eq!(parse_status("Solved"), JobStatus::Failed);
    assert_eq!(parse_status(""), JobStatus::Failed);
}

#[test]
fn solved_row_carries_its_result() {
    let job: protocol::Job = row("solved", true).into();
    assert_eq!(job.status, JobStatus::Solved);
    assert_eq!(job.result, Some(expected_result()));
    assert_eq!(job.id, uuid::Uuid::from_u128(42));
    assert_eq!(job.original_filename, Some("andromeda.fits".to_string()));
}

#[test]
fn unsolved_rows_carry_no_result() {
    for s in ["pending", "solving", "failed", "other"] {
        let job: protocol::Job = row(s, true).into();
        assert_eq!(job.result, None, "{s}");
    }
}

#[test]
fn solved_row_with_missing_column_carries_no_result() {
    let mut r = row("solved", true);
    r.field_height_deg = None;
    let job: protocol::Job = r.into();
    assert_eq!(job.status, JobStatus::Solved);
    assert_eq!(job.result, None);
}

#[test]
fn updates_write_the_expected_columns() {
    let u = JobUpdate::solved(expected_result());
    assert_eq!(u.status, JobStatus::Solved);
    assert_eq!(u.ra_deg, Some(b(10.5)));
    assert_eq!(u.field_height_deg, Some(b(1.25)));
    assert!(u.error_message.is_none());
    let u = JobUpdate::failed("Solve timed out".to_string());
    assert_eq!(u.status, JobStatus::Failed);
    assert_eq!(u.error_message.as_deref(), Some("Solve timed out"));
    let u = JobUpdate::solving();
    assert_eq!(u.status, JobStatus::Solving);
    assert!(u.error_message.is_none());
}

#[test]
fn new_job_keeps_file_name() {
    assert_eq!(NewJob::new(Some("m31.png".to_string())).original_filename.as_deref(), Some("m31.png"));
    assert!(NewJob::new(None).original_filename.is_none());
}
