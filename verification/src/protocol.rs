//! The types that the server and the browser client exchange: the messages of
//! the two WebSocket endpoints and the records of the HTTP API.
use crate::binary64::Binary64;
use vstd::prelude::*;

verus! {

/// A job identifier.
#[verifier::external_type_specification]
#[verifier::external_body]
pub struct ExUuid(uuid::Uuid);

/// A calendar date and time without a time zone.
#[verifier::external_type_specification]
#[verifier::external_body]
pub struct ExNaiveDateTime(chrono::NaiveDateTime);

/// `Uuid::clone`: `Uuid` derives `Clone` and `Copy`, so a clone is the same
/// identifier.
pub assume_specification[ <uuid::Uuid as Clone>::clone ](id: &uuid::Uuid) -> (r: uuid::Uuid)
    ensures
        r == *id,
;

/// `NaiveDateTime::clone`: the type derives `Clone` and `Copy`, so a clone is
/// the same instant.
pub assume_specification[ <chrono::NaiveDateTime as Clone>::clone ](
    t: &chrono::NaiveDateTime,
) -> (r: chrono::NaiveDateTime)
    ensures
        r == *t,
;

/// Route of the application WebSocket endpoint.
pub const APP_SOCKET_PATH: &'static str = "/ws";

/// Route of the per-job solve WebSocket endpoint (the job id follows it).
pub const SOLVE_SOCKET_PATH: &'static str = "/ws/solve";

/// The main application WebSocket endpoint: carries [`ServerMsg`] from the
/// server and [`ClientMsg`] from the client.
pub struct AppSocket;

/// The per-job WebSocket endpoint that streams solve progress: carries
/// [`SolveServerMsg`] from the server and [`SolveClientMsg`] from the client.
pub struct SolveSocket;

impl AppSocket {
    /// The route the endpoint is served at.
    pub fn path() -> (p: &'static str)
        ensures
            p@ == APP_SOCKET_PATH@,
    {
        APP_SOCKET_PATH
    }
}

impl SolveSocket {
    /// The route prefix the endpoint is served at.
    pub fn path() -> (p: &'static str)
        ensures
            p@ == SOLVE_SOCKET_PATH@,
    {
        SOLVE_SOCKET_PATH
    }
}

/// Messages sent from the server to the client on the application socket.
#[derive(Debug, Clone)]
pub enum ServerMsg {
    /// Heartbeat to keep the connection alive.
    Heartbeat,
    /// Error from the server.
    Error { message: String },
    /// The server is shutting down.
    ServerShutdown { reason: String, reconnect_delay_ms: u64 },
    /// A solve job has been accepted and queued.
    JobAccepted { job_id: uuid::Uuid },
    /// Progress update for a running solve.
    JobProgress { job_id: uuid::Uuid, status: JobStatus },
    /// Solve completed with results.
    JobCompleted { job_id: uuid::Uuid, result: SolveResult },
}

/// [`ServerMsg`] with its texts taken by their characters.
pub enum ServerMsgView {
    Heartbeat,
    Error { message: Seq<char> },
    ServerShutdown { reason: Seq<char>, reconnect_delay_ms: u64 },
    JobAccepted { job_id: uuid::Uuid },
    JobProgress { job_id: uuid::Uuid, status: JobStatus },
    JobCompleted { job_id: uuid::Uuid, result: SolveResult },
}

impl View for ServerMsg {
    type V = ServerMsgView;

    open spec fn view(&self) -> ServerMsgView {
        match self {
            ServerMsg::Heartbeat => ServerMsgView::Heartbeat,
            ServerMsg::Error { message } => ServerMsgView::Error { message: message@ },
            ServerMsg::ServerShutdown { reason, reconnect_delay_ms } =>
                ServerMsgView::ServerShutdown {
                    reason: reason@,
                    reconnect_delay_ms: *reconnect_delay_ms,
                },
            ServerMsg::JobAccepted { job_id } => ServerMsgView::JobAccepted { job_id: *job_id },
            ServerMsg::JobProgress { job_id, status } => ServerMsgView::JobProgress {
                job_id: *job_id,
                status: *status,
            },
            ServerMsg::JobCompleted { job_id, result } => ServerMsgView::JobCompleted {
                job_id: *job_id,
                result: *result,
            },
        }
    }
}

/// Messages sent from the client to the server on the application socket.
#[derive(Debug, Clone)]
pub enum ClientMsg {
    /// Ping: the server answers with a heartbeat.
    Ping,
    /// Subscribe to updates for a specific job.
    SubscribeJob { job_id: uuid::Uuid },
}

/// Server-to-client messages on a solve socket.
#[derive(Debug, Clone)]
pub enum SolveServerMsg {
    /// Connection accepted, the solve is starting.
    Accepted { job_id: uuid::Uuid },
    /// Extracting star sources from the image; the count once it is known.
    Extracting { n_sources: Option<usize> },
    /// The solver is running; periodic progress update.
    Solving { n_verified: usize },
    /// The solve succeeded.
    Solved { result: SolveResult },
    /// The solve failed.
    Failed { reason: String },
}

/// [`SolveServerMsg`] with its text taken by its characters.
pub enum SolveServerMsgView {
    Accepted { job_id: uuid::Uuid },
    Extracting { n_sources: Option<usize> },
    Solving { n_verified: usize },
    Solved { result: SolveResult },
    Failed { reason: Seq<char> },
}

impl View for SolveServerMsg {
    type V = SolveServerMsgView;

    open spec fn view(&self) -> SolveServerMsgView {
        match self {
            SolveServerMsg::Accepted { job_id } => SolveServerMsgView::Accepted { job_id: *job_id },
            SolveServerMsg::Extracting { n_sources } => SolveServerMsgView::Extracting {
                n_sources: *n_sources,
            },
            SolveServerMsg::Solving { n_verified } => SolveServerMsgView::Solving {
                n_verified: *n_verified,
            },
            SolveServerMsg::Solved { result } => SolveServerMsgView::Solved { result: *result },
            SolveServerMsg::Failed { reason } => SolveServerMsgView::Failed { reason: reason@ },
        }
    }
}

/// Client-to-server messages on a solve socket.
#[derive(Debug, Clone, Copy, PartialEq, Eq, Structural)]
pub enum SolveClientMsg {
    /// Request to cancel the solve (best effort).
    Cancel,
}

/// Status of a plate-solve job.
#[derive(Debug, Clone, Copy, PartialEq, Eq, Structural)]
pub enum JobStatus {
    /// Queued, waiting to be processed.
    Pending,
    /// The solver is running.
    Solving,
    /// The solve succeeded.
    Solved,
    /// The solve failed.
    Failed,
}

/// Optional hints supplied with an upload to narrow the solver's search.
///
/// All fields are independent and optional. The scale pair bounds the pixel
/// scale (arcseconds per pixel) and takes effect only when both ends are set;
/// the sky triple (RA, Dec, radius, in degrees) takes effect only when all
/// three are set.
#[derive(Debug, Clone, Copy, PartialEq, Eq, Structural)]
pub struct SolveHints {
    pub scale_min_arcsec: Option<Binary64>,
    pub scale_max_arcsec: Option<Binary64>,
    pub ra_hint_deg: Option<Binary64>,
    pub dec_hint_deg: Option<Binary64>,
    pub radius_hint_deg: Option<Binary64>,
}

impl SolveHints {
    /// Whether no hint is set.
    pub open spec fn is_empty(self) -> bool {
        &&& self.scale_min_arcsec is None
        &&& self.scale_max_arcsec is None
        &&& self.ra_hint_deg is None
        &&& self.dec_hint_deg is None
        &&& self.radius_hint_deg is None
    }
}

impl Default for SolveHints {
    /// No hints at all.
    fn default() -> (h: SolveHints)
        ensures
            h.is_empty(),
    {
        SolveHints {
            scale_min_arcsec: None,
            scale_max_arcsec: None,
            ra_hint_deg: None,
            dec_hint_deg: None,
            radius_hint_deg: None,
        }
    }
}

/// Result of a successful plate solve.
#[derive(Debug, Clone, Copy, PartialEq, Eq, Structural)]
pub struct SolveResult {
    /// Right ascension of the image centre (degrees).
    pub ra_deg: Binary64,
    /// Declination of the image centre (degrees).
    pub dec_deg: Binary64,
    /// Image orientation angle (degrees east of north).
    pub orientation_deg: Binary64,
    /// Pixel scale (arcseconds per pixel).
    pub pixel_scale_arcsec: Binary64,
    /// Field width (degrees).
    pub field_width_deg: Binary64,
    /// Field height (degrees).
    pub field_height_deg: Binary64,
}

/// Health check response from `/api/health`.
#[derive(Debug, Clone)]
pub struct HealthResponse {
    pub status: String,
}

/// Response after uploading an image for solving.
#[derive(Debug, Clone)]
pub struct SubmitJobResponse {
    pub job_id: uuid::Uuid,
    pub status: JobStatus,
}

impl SubmitJobResponse {
    /// The answer to an accepted upload: the new job, still pending.
    pub fn accepted(job_id: uuid::Uuid) -> (r: SubmitJobResponse)
        ensures
            r.job_id == job_id,
            r.status == JobStatus::Pending,
    {
        SubmitJobResponse { job_id, status: JobStatus::Pending }
    }
}

/// Full job record returned by the API.
#[derive(Debug, Clone)]
pub struct Job {
    pub id: uuid::Uuid,
    pub original_filename: Option<String>,
    pub status: JobStatus,
    pub result: Option<SolveResult>,
    pub created_at: chrono::NaiveDateTime,
    pub updated_at: chrono::NaiveDateTime,
}

} // verus!
