//! Rows of the job table, and how they become the job records of the API.
use crate::binary64::Binary64;
use crate::protocol::{JobStatus, SolveResult};
use crate::text::str_eq;
use vstd::prelude::*;

verus! {

/// A row of the job table.
#[derive(Debug)]
pub struct Job {
    pub id: uuid::Uuid,
    pub original_filename: Option<String>,
    pub status: String,
    pub ra_deg: Option<Binary64>,
    pub dec_deg: Option<Binary64>,
    pub orientation_deg: Option<Binary64>,
    pub pixel_scale_arcsec: Option<Binary64>,
    pub field_width_deg: Option<Binary64>,
    pub field_height_deg: Option<Binary64>,
    pub error_message: Option<String>,
    pub created_at: chrono::NaiveDateTime,
    pub updated_at: chrono::NaiveDateTime,
}

/// A row to insert: a new job keeps only the name of the uploaded file; the
/// table fills in the rest.
#[derive(Debug)]
pub struct NewJob {
    pub original_filename: Option<String>,
}

/// The columns a status change writes. `None` leaves a result column as it
/// is; `error_message` is always written.
#[derive(Debug)]
pub struct JobUpdate {
    pub status: JobStatus,
    pub ra_deg: Option<Binary64>,
    pub dec_deg: Option<Binary64>,
    pub orientation_deg: Option<Binary64>,
    pub pixel_scale_arcsec: Option<Binary64>,
    pub field_width_deg: Option<Binary64>,
    pub field_height_deg: Option<Binary64>,
    pub error_message: Option<String>,
}

/// The name a status is stored under in the job table.
pub open spec fn status_name(status: JobStatus) -> Seq<char> {
    match status {
        JobStatus::Pending => "pending"@,
        JobStatus::Solving => "solving"@,
        JobStatus::Solved => "solved"@,
        JobStatus::Failed => "failed"@,
    }
}

/// The status a stored name stands for; a name the service does not know
/// counts as failed.
pub open spec fn status_from_name(name: Seq<char>) -> JobStatus {
    if name == "pending"@ {
        JobStatus::Pending
    } else if name == "solving"@ {
        JobStatus::Solving
    } else if name == "solved"@ {
        JobStatus::Solved
    } else {
        JobStatus::Failed
    }
}

/// The name a status is stored under.
pub fn status_db_name(status: JobStatus) -> (name: &'static str)
    ensures
        name@ == status_name(status),
{
    match status {
        JobStatus::Pending => "pending",
        JobStatus::Solving => "solving",
        JobStatus::Solved => "solved",
        JobStatus::Failed => "failed",
    }
}

/// The status a stored name stands for.
pub fn parse_status(name: &str) -> (status: JobStatus)
    ensures
        status == status_from_name(name@),
{
    if str_eq(name, "pending") {
        JobStatus::Pending
    } else if str_eq(name, "solving") {
        JobStatus::Solving
    } else if str_eq(name, "solved") {
        JobStatus::Solved
    } else {
        JobStatus::Failed
    }
}

/// Reading back a stored status gives the status that was stored.
pub proof fn lemma_status_name_round_trip(status: JobStatus)
    ensures
        status_from_name(status_name(status)) == status,
{
    reveal_strlit("pending");
    reveal_strlit("solving");
    reveal_strlit("solved");
    reveal_strlit("failed");
    match status {
        JobStatus::Pending => {},
        JobStatus::Solving => {
            assert("solving"@[0] != "pending"@[0]);
        },
        JobStatus::Solved => {
            assert("solved"@[0] != "pending"@[0]);
            assert("solved"@.len() != "solving"@.len());
        },
        JobStatus::Failed => {
            assert("failed"@[0] != "pending"@[0]);
            assert("failed"@[0] != "solving"@[0]);
            assert("failed"@[0] != "solved"@[0]);
        },
    }
}

/// The result a row carries: only a solved job has one, and only when all of
/// its result columns are filled.
pub open spec fn stored_result(status: JobStatus, row: Job) -> Option<SolveResult> {
    if status == JobStatus::Solved {
        match (
            row.ra_deg,
            row.dec_deg,
            row.orientation_deg,
            row.pixel_scale_arcsec,
            row.field_width_deg,
            row.field_height_deg,
        ) {
            (Some(ra), Some(dec), Some(orient), Some(scale), Some(w), Some(h)) => Some(
                SolveResult {
                    ra_deg: ra,
                    dec_deg: dec,
                    orientation_deg: orient,
                    pixel_scale_arcsec: scale,
                    field_width_deg: w,
                    field_height_deg: h,
                },
            ),
            _ => None,
        }
    } else {
        None
    }
}

/// The API record of a row: the stored status name read back, the result
/// when the row carries one, and the other columns as they are.
pub open spec fn job_record(row: Job) -> crate::protocol::Job {
    crate::protocol::Job {
        id: row.id,
        original_filename: row.original_filename,
        status: status_from_name(row.status@),
        result: stored_result(status_from_name(row.status@), row),
        created_at: row.created_at,
        updated_at: row.updated_at,
    }
}

impl vstd::std_specs::convert::FromSpecImpl<Job> for crate::protocol::Job {
    open spec fn obeys_from_spec() -> bool {
        true
    }

    open spec fn from_spec(row: Job) -> crate::protocol::Job {
        job_record(row)
    }
}

impl From<Job> for crate::protocol::Job {
    fn from(row: Job) -> (job: crate::protocol::Job) {
        let status = parse_status(row.status.as_str());
        let result = if status == JobStatus::Solved {
            match (
                row.ra_deg,
                row.dec_deg,
                row.orientation_deg,
                row.pixel_scale_arcsec,
                row.field_width_deg,
                row.field_height_deg,
            ) {
                (Some(ra), Some(dec), Some(orient), Some(scale), Some(w), Some(h)) => Some(
                    SolveResult {
                        ra_deg: ra,
                        dec_deg: dec,
                        orientation_deg: orient,
                        pixel_scale_arcsec: scale,
                        field_width_deg: w,
                        field_height_deg: h,
                    },
                ),
                _ => None,
            }
        } else {
            None
        };
        crate::protocol::Job {
            id: row.id,
            original_filename: row.original_filename,
            status,
            result,
            created_at: row.created_at,
            updated_at: row.updated_at,
        }
    }
}

impl NewJob {
    /// The row of a new upload.
    pub fn new(original_filename: Option<String>) -> (j: NewJob)
        ensures
            j.original_filename == original_filename,
    {
        NewJob { original_filename }
    }
}

impl JobUpdate {
    /// The update that marks a job as being solved.
    pub fn solving() -> (u: JobUpdate)
        ensures
            u.status == JobStatus::Solving,
            u.error_message is None,
            u.ra_deg is None && u.dec_deg is None && u.orientation_deg is None
                && u.pixel_scale_arcsec is None && u.field_width_deg is None
                && u.field_height_deg is None,
    {
        JobUpdate {
            status: JobStatus::Solving,
            ra_deg: None,
            dec_deg: None,
            orientation_deg: None,
            pixel_scale_arcsec: None,
            field_width_deg: None,
            field_height_deg: None,
            error_message: None,
        }
    }

    /// The update that records a solution: status solved, every result
    /// column filled, no error message.
    pub fn solved(result: SolveResult) -> (u: JobUpdate)
        ensures
            u.status == JobStatus::Solved,
            u.ra_deg == Some(result.ra_deg),
            u.dec_deg == Some(result.dec_deg),
            u.orientation_deg == Some(result.orientation_deg),
            u.pixel_scale_arcsec == Some(result.pixel_scale_arcsec),
            u.field_width_deg == Some(result.field_width_deg),
            u.field_height_deg == Some(result.field_height_deg),
            u.error_message is None,
    {
        JobUpdate {
            status: JobStatus::Solved,
            ra_deg: Some(result.ra_deg),
            dec_deg: Some(result.dec_deg),
            orientation_deg: Some(result.orientation_deg),
            pixel_scale_arcsec: Some(result.pixel_scale_arcsec),
            field_width_deg: Some(result.field_width_deg),
            field_height_deg: Some(result.field_height_deg),
            error_message: None,
        }
    }

    /// The update that records a failure and its reason.
    pub fn failed(reason: String) -> (u: JobUpdate)
        ensures
            u.status == JobStatus::Failed,
            u.error_message == Some(reason),
            u.ra_deg is None && u.dec_deg is None && u.orientation_deg is None
                && u.pixel_scale_arcsec is None && u.field_width_deg is None
                && u.field_height_deg is None,
    {
        JobUpdate {
            status: JobStatus::Failed,
            ra_deg: None,
            dec_deg: None,
            orientation_deg: None,
            pixel_scale_arcsec: None,
            field_width_deg: None,
            field_height_deg: None,
            error_message: Some(reason),
        }
    }
}

/// A job whose solution was recorded reads back as solved, with that
/// solution: the row holds the stored status name and the columns the
/// update wrote.
pub proof fn lemma_recorded_solution_reads_back(row: Job, result: SolveResult)
    requires
        row.status@ == status_name(JobStatus::Solved),
        row.ra_deg == Some(result.ra_deg),
        row.dec_deg == Some(result.dec_deg),
        row.orientation_deg == Some(result.orientation_deg),
        row.pixel_scale_arcsec == Some(result.pixel_scale_arcsec),
        row.field_width_deg == Some(result.field_width_deg),
        row.field_height_deg == Some(result.field_height_deg),
    ensures
        job_record(row).status
            == JobStatus::Solved,
        job_record(row).result
            == Some(result),
{
    lemma_status_name_round_trip(JobStatus::Solved);
}

/// Only a solved job carries a result.
pub proof fn lemma_result_only_when_solved(row: Job)
    ensures
        job_record(row).result is Some ==> job_record(row).status == JobStatus::Solved,
{
}

/// The record of a row carries the row's identity, file name and both
/// timestamps unchanged: `created_at` from `created_at`, `updated_at` from
/// `updated_at`.
pub proof fn lemma_record_keeps_row_columns(row: Job)
    ensures
        job_record(row).id == row.id,
        job_record(row).original_filename == row.original_filename,
        job_record(row).created_at == row.created_at,
        job_record(row).updated_at == row.updated_at,
{
}

/// A record carries a result exactly when the row's stored status reads as
/// solved and all six result columns are filled, and the result is made of
/// those columns.
pub proof fn lemma_record_result_is_the_columns(row: Job)
    ensures
        job_record(row).result is Some <==> (status_from_name(row.status@) == JobStatus::Solved
            && row.ra_deg is Some && row.dec_deg is Some && row.orientation_deg is Some
            && row.pixel_scale_arcsec is Some && row.field_width_deg is Some
            && row.field_height_deg is Some),
        job_record(row).result matches Some(r) ==> row.ra_deg == Some(r.ra_deg) && row.dec_deg
            == Some(r.dec_deg) && row.orientation_deg == Some(r.orientation_deg)
            && row.pixel_scale_arcsec == Some(r.pixel_scale_arcsec) && row.field_width_deg
            == Some(r.field_width_deg) && row.field_height_deg == Some(r.field_height_deg),
{
}

/// Two statuses are stored under different names.
pub proof fn lemma_status_names_differ(a: JobStatus, b: JobStatus)
    ensures
        status_name(a) == status_name(b) ==> a == b,
{
    lemma_status_name_round_trip(a);
    lemma_status_name_round_trip(b);
}

} // verus!
