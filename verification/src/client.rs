//! The browser client's decisions: where the solve socket is, what the
//! status line says as solve messages arrive, and when to stop listening.
use crate::decimal::{append_decimal, decimal};
use crate::protocol::{ServerMsg, SolveResult, SolveServerMsg};
use vstd::prelude::*;
use vstd::string::*;

verus! {

/// Seconds between two pings on the application socket.
pub const HEARTBEAT_INTERVAL_SECS: u64 = 5;

/// Whether the client stops listening on the application socket: the server
/// announced its shutdown, or the connection failed.
pub fn stops_listening(incoming: &Result<ServerMsg, String>) -> (r: bool)
    ensures
        r == match incoming {
            Ok(ServerMsg::ServerShutdown { .. }) => true,
            Ok(_) => false,
            Err(_) => true,
        },
{
    match incoming {
        Ok(ServerMsg::ServerShutdown { .. }) => true,
        Ok(_) => false,
        Err(_) => true,
    }
}

/// The address of a job's solve socket: `wss:` under `https:`, `ws:`
/// otherwise, then `//host/ws/solve/` and the job id.
pub open spec fn solve_socket_url(protocol: Seq<char>, host: Seq<char>, job_id: Seq<char>) -> Seq<
    char,
> {
    (if protocol == "https:"@ {
        "wss:"@
    } else {
        "ws:"@
    }) + "//"@ + host + "/ws/solve/"@ + job_id
}

/// The address of a job's solve socket.
pub fn ws_solve_url(protocol: &str, host: &str, job_id: &str) -> (url: String)
    ensures
        url@ == solve_socket_url(protocol@, host@, job_id@),
{
    let mut url = if crate::text::str_eq(protocol, "https:") {
        String::from_str("wss:")
    } else {
        String::from_str("ws:")
    };
    url.append("//");
    url.append(host);
    url.append("/ws/solve/");
    url.append(job_id);
    url
}

/// The short form of a job id shown to the user: its first eight characters.
pub fn short_job_id(job_id: &str) -> (s: String)
    requires
        job_id@.len() >= 8,
    ensures
        s@ == job_id@.subrange(0, 8),
{
    String::from_str(job_id.substring_char(0, 8))
}

/// What the status line does on a message of the solve socket.
#[derive(Debug)]
pub enum ClientUpdate {
    /// Show this status and keep listening.
    Status(String),
    /// Show this status, add it to the activity list, and stop listening.
    Finished(String),
    /// The job was solved: show the solution, add it to the activity list,
    /// and stop listening.
    Solved(SolveResult),
    /// Show this status and stop listening: the connection failed.
    Broken(String),
}

/// [`ClientUpdate`] with its text taken by its characters.
pub enum ClientUpdateView {
    Status(Seq<char>),
    Finished(Seq<char>),
    Solved(SolveResult),
    Broken(Seq<char>),
}

impl View for ClientUpdate {
    type V = ClientUpdateView;

    open spec fn view(&self) -> ClientUpdateView {
        match self {
            ClientUpdate::Status(s) => ClientUpdateView::Status(s@),
            ClientUpdate::Finished(s) => ClientUpdateView::Finished(s@),
            ClientUpdate::Solved(r) => ClientUpdateView::Solved(*r),
            ClientUpdate::Broken(s) => ClientUpdateView::Broken(s@),
        }
    }
}

/// The prefix of every status line about the job.
pub open spec fn job_prefix(short_id: Seq<char>) -> Seq<char> {
    "Job "@ + short_id + " \u{2014} "@
}

/// What the status line does on `incoming`, for the job of short id
/// `short_id`.
pub open spec fn solve_update_of(short_id: Seq<char>, incoming: Result<SolveServerMsg, String>) -> ClientUpdateView {
    match incoming {
        Ok(SolveServerMsg::Accepted { .. }) => ClientUpdateView::Status(
            job_prefix(short_id) + "accepted"@,
        ),
        Ok(SolveServerMsg::Extracting { n_sources }) => match n_sources {
            Some(n) => if n > 0 {
                ClientUpdateView::Status(
                    job_prefix(short_id) + decimal(n as nat) + " sources extracted"@,
                )
            } else {
                ClientUpdateView::Status(job_prefix(short_id) + "extracting sources..."@)
            },
            None => ClientUpdateView::Status(job_prefix(short_id) + "extracting sources..."@),
        },
        Ok(SolveServerMsg::Solving { n_verified }) => ClientUpdateView::Status(
            job_prefix(short_id) + "solving ("@ + decimal(n_verified as nat) + " verified)..."@,
        ),
        Ok(SolveServerMsg::Solved { result }) => ClientUpdateView::Solved(result),
        Ok(SolveServerMsg::Failed { reason }) => ClientUpdateView::Finished(
            "Failed: "@ + reason@,
        ),
        Err(e) => ClientUpdateView::Broken("WS error: "@ + e@),
    }
}

fn job_line(short_id: &str) -> (s: String)
    ensures
        s@ == job_prefix(short_id@),
{
    let mut s = String::from_str("Job ");
    s.append(short_id);
    s.append(" \u{2014} ");
    s
}

/// What the status line does on a message of the solve socket.
pub fn solve_update(short_id: &str, incoming: Result<SolveServerMsg, String>) -> (u: ClientUpdate)
    ensures
        u@ == solve_update_of(short_id@, incoming),
{
    match incoming {
        Ok(SolveServerMsg::Accepted { .. }) => {
            let mut s = job_line(short_id);
            s.append("accepted");
            ClientUpdate::Status(s)
        },
        Ok(SolveServerMsg::Extracting { n_sources }) => {
            let mut s = job_line(short_id);
            match n_sources {
                Some(n) => {
                    if n > 0 {
                        append_decimal(&mut s, n as u64);
                        s.append(" sources extracted");
                    } else {
                        s.append("extracting sources...");
                    }
                },
                None => {
                    s.append("extracting sources...");
                },
            }
            ClientUpdate::Status(s)
        },
        Ok(SolveServerMsg::Solving { n_verified }) => {
            let mut s = job_line(short_id);
            s.append("solving (");
            append_decimal(&mut s, n_verified as u64);
            s.append(" verified)...");
            ClientUpdate::Status(s)
        },
        Ok(SolveServerMsg::Solved { result }) => ClientUpdate::Solved(result),
        Ok(SolveServerMsg::Failed { reason }) => {
            let mut s = String::from_str("Failed: ");
            s.append(reason.as_str());
            ClientUpdate::Finished(s)
        },
        Err(e) => {
            let mut s = String::from_str("WS error: ");
            s.append(e.as_str());
            ClientUpdate::Broken(s)
        },
    }
}

/// The status line while a file uploads.
pub fn uploading_status(file_name: &str) -> (s: String)
    ensures
        s@ == "Uploading "@ + file_name@ + "..."@,
{
    let mut s = String::from_str("Uploading ");
    s.append(file_name);
    s.append("...");
    s
}

/// The status line when the upload failed.
pub fn upload_failed_status(error: &str) -> (s: String)
    ensures
        s@ == "Upload failed: "@ + error@,
{
    let mut s = String::from_str("Upload failed: ");
    s.append(error);
    s
}

/// The status line while the solve socket of the job connects.
pub fn connecting_status(short_id: &str) -> (s: String)
    ensures
        s@ == job_prefix(short_id@) + "connecting..."@,
{
    let mut s = job_line(short_id);
    s.append("connecting...");
    s
}

/// The status line when the solve socket could not be opened.
pub fn connect_failed_status(error: &str) -> (s: String)
    ensures
        s@ == "WS connect failed: "@ + error@,
{
    let mut s = String::from_str("WS connect failed: ");
    s.append(error);
    s
}

/// The backend line: the health status once known.
pub fn backend_status(health: Option<&str>) -> (s: String)
    ensures
        match health {
            Some(h) => s@ == "Backend: "@ + h@,
            None => s@ == "Checking backend..."@,
        },
{
    match health {
        Some(h) => {
            let mut s = String::from_str("Backend: ");
            s.append(h);
            s
        },
        None => String::from_str("Checking backend..."),
    }
}

/// An entry of the activity list: the file name, a colon, and the outcome.
pub fn activity_entry(file_name: &str, outcome: &str) -> (s: String)
    ensures
        s@ == file_name@ + ": "@ + outcome@,
{
    let mut s = String::from_str(file_name);
    s.append(": ");
    s.append(outcome);
    s
}

/// The outcome of the upload request: its body when the server answered
/// `200`, and `HTTP` with the status code otherwise.
pub fn upload_outcome(status: u16, body: String) -> (r: Result<String, String>)
    ensures
        status == 200 ==> r == Ok::<String, String>(body),
        status != 200 ==> (r matches Err(e) && e@ == "HTTP "@ + decimal(status as nat)),
{
    if status == 200 {
        Ok(body)
    } else {
        let mut e = String::from_str("HTTP ");
        append_decimal(&mut e, status as u64);
        Err(e)
    }
}

/// The status line follows the message: a solution is shown as that
/// solution; a failure ends the listening with a line that closes with the
/// reason; a broken connection ends it with a line that closes with the
/// error; every other message keeps listening with a line about the job.
pub proof fn lemma_status_follows_message(short_id: Seq<char>, incoming: Result<SolveServerMsg, String>)
    ensures
        match incoming {
            Ok(SolveServerMsg::Solved { result }) => solve_update_of(short_id, incoming)
                == ClientUpdateView::Solved(result),
            Ok(SolveServerMsg::Failed { reason }) => solve_update_of(short_id, incoming) matches ClientUpdateView::Finished(s)
                && s.len() >= reason@.len() && s.subrange(s.len() - reason@.len(), s.len() as int)
                == reason@,
            Ok(_) => solve_update_of(short_id, incoming) matches ClientUpdateView::Status(s)
                && s.len() >= job_prefix(short_id).len() && s.subrange(
                0,
                job_prefix(short_id).len() as int,
            ) == job_prefix(short_id),
            Err(e) => solve_update_of(short_id, incoming) matches ClientUpdateView::Broken(s)
                && s.len() >= e@.len() && s.subrange(s.len() - e@.len(), s.len() as int) == e@,
        },
{
    let p = job_prefix(short_id);
    match incoming {
        Ok(SolveServerMsg::Failed { reason }) => {
            let s = "Failed: "@ + reason@;
            assert(s.subrange(s.len() - reason@.len(), s.len() as int) =~= reason@);
        },
        Err(e) => {
            let s = "WS error: "@ + e@;
            assert(s.subrange(s.len() - e@.len(), s.len() as int) =~= e@);
        },
        Ok(SolveServerMsg::Accepted { .. }) => {
            assert((p + "accepted"@).subrange(0, p.len() as int) =~= p);
        },
        Ok(SolveServerMsg::Extracting { n_sources }) => {
            assert((p + "extracting sources..."@).subrange(0, p.len() as int) =~= p);
            match n_sources {
                Some(n) => {
                    assert((p + decimal(n as nat) + " sources extracted"@).subrange(
                        0,
                        p.len() as int,
                    ) =~= p);
                },
                None => {},
            }
        },
        Ok(SolveServerMsg::Solving { n_verified }) => {
            assert((p + "solving ("@ + decimal(n_verified as nat) + " verified)..."@).subrange(
                0,
                p.len() as int,
            ) =~= p);
        },
        _ => {},
    }
}

} // verus!
