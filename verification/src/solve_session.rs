//! The decisions of a solve WebSocket session, as a state machine.
//!
//! A client uploads an image, then connects to the solve socket of its job.
//! The server looks up the pending upload, marks the job as solving, runs the
//! solver while it forwards progress, records the outcome in the job table
//! and reports it. The outside work (the lookup, the database, the solver, the
//! socket) is done by the caller; this module decides, for each event that
//! the caller reports, which message goes to the client and what is done
//! next.
use crate::decimal::{append_decimal, decimal, lemma_decimal_injective};
use crate::protocol::{SolveResult, SolveServerMsg, SolveServerMsgView};
use vstd::prelude::*;
use vstd::string::*;

verus! {

/// What the solver reported when it returned.
#[derive(Debug, Clone, Copy, PartialEq, Eq, Structural)]
pub struct SolveReport {
    /// The solution, when one was found.
    pub solution: Option<SolveResult>,
    /// Whether the solver gave up at its time limit.
    pub timed_out: bool,
    /// Number of candidate solutions the solver verified.
    pub n_verified: usize,
    /// Number of star sources extracted from the image.
    pub n_sources: usize,
}

/// What happened outside, reported to the session.
#[derive(Debug)]
pub enum SolveEvent {
    /// The pending upload of the job was looked up; `found` tells whether it
    /// was there.
    UploadLookup { found: bool },
    /// The attempt to mark the job as solving in the job table ended.
    JobMarked { outcome: Result<(), String> },
    /// The solver reported a count: the number of extracted sources first,
    /// then the number of verified candidates.
    Progress { count: usize },
    /// The solve ended: with the solver's report, or with an error that
    /// stopped it (an undecodable image, a failed task).
    SolveFinished { result: Result<SolveReport, String> },
    /// The attempt to record the outcome in the job table ended.
    ResultRecorded { outcome: Result<(), String> },
}

/// [`SolveEvent`] with its texts taken by their characters.
pub enum SolveEventView {
    UploadLookup { found: bool },
    JobMarked { outcome: Result<(), Seq<char>> },
    Progress { count: usize },
    SolveFinished { result: Result<SolveReport, Seq<char>> },
    ResultRecorded { outcome: Result<(), Seq<char>> },
}

pub open spec fn unit_outcome_view(o: Result<(), String>) -> Result<(), Seq<char>> {
    match o {
        Ok(()) => Ok(()),
        Err(e) => Err(e@),
    }
}

impl View for SolveEvent {
    type V = SolveEventView;

    open spec fn view(&self) -> SolveEventView {
        match self {
            SolveEvent::UploadLookup { found } => SolveEventView::UploadLookup { found: *found },
            SolveEvent::JobMarked { outcome } => SolveEventView::JobMarked {
                outcome: unit_outcome_view(*outcome),
            },
            SolveEvent::Progress { count } => SolveEventView::Progress { count: *count },
            SolveEvent::SolveFinished { result } => SolveEventView::SolveFinished {
                result: match result {
                    Ok(r) => Ok(*r),
                    Err(e) => Err(e@),
                },
            },
            SolveEvent::ResultRecorded { outcome } => SolveEventView::ResultRecorded {
                outcome: unit_outcome_view(*outcome),
            },
        }
    }
}

/// What the caller does next.
#[derive(Debug)]
pub enum SolveEffect {
    /// Nothing: wait for the next event.
    Wait,
    /// Set the job's status to solving in the job table.
    MarkSolving,
    /// Decode the image, extract its sources and run the solver, reporting
    /// the counts as they come.
    RunSolve,
    /// Record the job as solved, with this result.
    RecordSolved { result: SolveResult },
    /// Record the job as failed, with this reason.
    RecordFailed { reason: String },
    /// The session is over: close the connection.
    Close,
}

/// [`SolveEffect`] with its text taken by its characters.
pub enum SolveEffectView {
    Wait,
    MarkSolving,
    RunSolve,
    RecordSolved { result: SolveResult },
    RecordFailed { reason: Seq<char> },
    Close,
}

impl View for SolveEffect {
    type V = SolveEffectView;

    open spec fn view(&self) -> SolveEffectView {
        match self {
            SolveEffect::Wait => SolveEffectView::Wait,
            SolveEffect::MarkSolving => SolveEffectView::MarkSolving,
            SolveEffect::RunSolve => SolveEffectView::RunSolve,
            SolveEffect::RecordSolved { result } => SolveEffectView::RecordSolved {
                result: *result,
            },
            SolveEffect::RecordFailed { reason } => SolveEffectView::RecordFailed {
                reason: reason@,
            },
            SolveEffect::Close => SolveEffectView::Close,
        }
    }
}

/// Where a session stands.
#[derive(Debug)]
pub enum SessionPhase {
    /// The pending upload has not been looked up yet.
    AwaitingUpload,
    /// The job is being marked as solving.
    MarkingSolving,
    /// The solver runs; `count_sent` tells whether the source count has been
    /// sent to the client.
    Solving { count_sent: bool },
    /// A solution is being recorded.
    RecordingSolved { result: SolveResult },
    /// A failure is being recorded.
    RecordingFailed { reason: String },
    /// The session is over.
    Closed,
}

/// [`SessionPhase`] with its text taken by its characters.
pub enum SessionPhaseView {
    AwaitingUpload,
    MarkingSolving,
    Solving { count_sent: bool },
    RecordingSolved { result: SolveResult },
    RecordingFailed { reason: Seq<char> },
    Closed,
}

impl View for SessionPhase {
    type V = SessionPhaseView;

    open spec fn view(&self) -> SessionPhaseView {
        match self {
            SessionPhase::AwaitingUpload => SessionPhaseView::AwaitingUpload,
            SessionPhase::MarkingSolving => SessionPhaseView::MarkingSolving,
            SessionPhase::Solving { count_sent } => SessionPhaseView::Solving {
                count_sent: *count_sent,
            },
            SessionPhase::RecordingSolved { result } => SessionPhaseView::RecordingSolved {
                result: *result,
            },
            SessionPhase::RecordingFailed { reason } => SessionPhaseView::RecordingFailed {
                reason: reason@,
            },
            SessionPhase::Closed => SessionPhaseView::Closed,
        }
    }
}

/// What one step of the session gives the caller: at most one message for
/// the client, to be sent first, and the effect to carry out after it.
#[derive(Debug)]
pub struct StepOutput {
    pub message: Option<SolveServerMsg>,
    pub effect: SolveEffect,
}

/// The message sent when the job has no pending upload.
pub open spec fn no_upload_reason() -> Seq<char> {
    "No pending upload for this job ID"@
}

/// Why an unsolved job failed: the time limit, or the number of candidates
/// that the solver verified in vain.
pub open spec fn failure_reason(report: SolveReport) -> Seq<char> {
    if report.timed_out {
        "Solve timed out"@
    } else {
        "No solution found ("@ + decimal(report.n_verified as nat) + " candidates verified)"@
    }
}

/// One step of the session: the phase it moves to, the message it sends and
/// the effect it asks for. An event that the phase does not expect changes
/// nothing and sends nothing.
pub open spec fn transition(
    phase: SessionPhaseView,
    job_id: uuid::Uuid,
    event: SolveEventView,
) -> (SessionPhaseView, Option<SolveServerMsgView>, SolveEffectView) {
    match (phase, event) {
        (SessionPhaseView::AwaitingUpload, SolveEventView::UploadLookup { found }) => {
            if found {
                (
                    SessionPhaseView::MarkingSolving,
                    Some(SolveServerMsgView::Accepted { job_id }),
                    SolveEffectView::MarkSolving,
                )
            } else {
                (
                    SessionPhaseView::Closed,
                    Some(SolveServerMsgView::Failed { reason: no_upload_reason() }),
                    SolveEffectView::Close,
                )
            }
        },
        (SessionPhaseView::MarkingSolving, SolveEventView::JobMarked { outcome }) => {
            match outcome {
                Ok(()) => (
                    SessionPhaseView::Solving { count_sent: false },
                    Some(SolveServerMsgView::Extracting { n_sources: None }),
                    SolveEffectView::RunSolve,
                ),
                Err(e) => (
                    SessionPhaseView::Closed,
                    Some(SolveServerMsgView::Failed { reason: e }),
                    SolveEffectView::Close,
                ),
            }
        },
        (SessionPhaseView::Solving { count_sent }, SolveEventView::Progress { count }) => {
            if count_sent {
                (
                    SessionPhaseView::Solving { count_sent: true },
                    Some(SolveServerMsgView::Solving { n_verified: count }),
                    SolveEffectView::Wait,
                )
            } else {
                (
                    SessionPhaseView::Solving { count_sent: true },
                    Some(SolveServerMsgView::Extracting { n_sources: Some(count) }),
                    SolveEffectView::Wait,
                )
            }
        },
        (SessionPhaseView::Solving { count_sent }, SolveEventView::SolveFinished { result }) => {
            match result {
                Err(e) => (
                    SessionPhaseView::Closed,
                    Some(SolveServerMsgView::Failed { reason: e }),
                    SolveEffectView::Close,
                ),
                Ok(report) => {
                    let message = if count_sent {
                        None
                    } else {
                        Some(SolveServerMsgView::Extracting { n_sources: Some(report.n_sources) })
                    };
                    match report.solution {
                        Some(result) => (
                            SessionPhaseView::RecordingSolved { result },
                            message,
                            SolveEffectView::RecordSolved { result },
                        ),
                        None => (
                            SessionPhaseView::RecordingFailed { reason: failure_reason(report) },
                            message,
                            SolveEffectView::RecordFailed { reason: failure_reason(report) },
                        ),
                    }
                },
            }
        },
        (SessionPhaseView::RecordingSolved { result }, SolveEventView::ResultRecorded { outcome }) => {
            match outcome {
                Ok(()) => (
                    SessionPhaseView::Closed,
                    Some(SolveServerMsgView::Solved { result }),
                    SolveEffectView::Close,
                ),
                Err(e) => (
                    SessionPhaseView::Closed,
                    Some(SolveServerMsgView::Failed { reason: e }),
                    SolveEffectView::Close,
                ),
            }
        },
        (SessionPhaseView::RecordingFailed { reason }, SolveEventView::ResultRecorded { outcome }) => {
            match outcome {
                Ok(()) => (
                    SessionPhaseView::Closed,
                    Some(SolveServerMsgView::Failed { reason }),
                    SolveEffectView::Close,
                ),
                Err(e) => (
                    SessionPhaseView::Closed,
                    Some(SolveServerMsgView::Failed { reason: e }),
                    SolveEffectView::Close,
                ),
            }
        },
        _ => (phase, None, SolveEffectView::Wait),
    }
}

/// The order in which a solve socket's messages may come, as an automaton:
/// `Accepted` opens the session (or a lone `Failed` refuses it), then
/// `Extracting` without a count, then `Extracting` with the source count,
/// then any number of `Solving`, and last a single `Solved` or `Failed`. A
/// `Failed` may end the session at any point after it opened.
pub enum ProtocolStage {
    Start,
    Opened,
    Started,
    Counted,
    Finished,
}

/// The stage after `m`, or `None` when `m` may not come at `stage`.
pub open spec fn protocol_next(
    stage: ProtocolStage,
    job_id: uuid::Uuid,
    m: SolveServerMsgView,
) -> Option<ProtocolStage> {
    match stage {
        ProtocolStage::Start => match m {
            SolveServerMsgView::Accepted { job_id: id } => if id == job_id {
                Some(ProtocolStage::Opened)
            } else {
                None
            },
            SolveServerMsgView::Failed { .. } => Some(ProtocolStage::Finished),
            _ => None,
        },
        ProtocolStage::Opened => match m {
            SolveServerMsgView::Extracting { n_sources: None } => Some(ProtocolStage::Started),
            SolveServerMsgView::Failed { .. } => Some(ProtocolStage::Finished),
            _ => None,
        },
        ProtocolStage::Started => match m {
            SolveServerMsgView::Extracting { n_sources: Some(_) } => Some(ProtocolStage::Counted),
            SolveServerMsgView::Failed { .. } => Some(ProtocolStage::Finished),
            _ => None,
        },
        ProtocolStage::Counted => match m {
            SolveServerMsgView::Solving { .. } => Some(ProtocolStage::Counted),
            SolveServerMsgView::Solved { .. } => Some(ProtocolStage::Finished),
            SolveServerMsgView::Failed { .. } => Some(ProtocolStage::Finished),
            _ => None,
        },
        ProtocolStage::Finished => None,
    }
}

/// The stage a sequence of messages of the job's socket leads to, or `None`
/// when the sequence breaks the order.
pub open spec fn protocol_run(job_id: uuid::Uuid, msgs: Seq<SolveServerMsgView>) -> Option<
    ProtocolStage,
>
    decreases msgs.len(),
{
    if msgs.len() == 0 {
        Some(ProtocolStage::Start)
    } else {
        match protocol_run(job_id, msgs.drop_last()) {
            Some(stage) => protocol_next(stage, job_id, msgs.last()),
            None => None,
        }
    }
}

/// The protocol stage a session phase stands at.
pub open spec fn stage_of(phase: SessionPhaseView) -> ProtocolStage {
    match phase {
        SessionPhaseView::AwaitingUpload => ProtocolStage::Start,
        SessionPhaseView::MarkingSolving => ProtocolStage::Opened,
        SessionPhaseView::Solving { count_sent } => if count_sent {
            ProtocolStage::Counted
        } else {
            ProtocolStage::Started
        },
        SessionPhaseView::RecordingSolved { .. } => ProtocolStage::Counted,
        SessionPhaseView::RecordingFailed { .. } => ProtocolStage::Counted,
        SessionPhaseView::Closed => ProtocolStage::Finished,
    }
}

/// A session that starts at `phase` and takes `events` in turn: the phase
/// it ends in and the messages it sends.
pub open spec fn run_session(
    phase: SessionPhaseView,
    job_id: uuid::Uuid,
    events: Seq<SolveEventView>,
) -> (SessionPhaseView, Seq<SolveServerMsgView>)
    decreases events.len(),
{
    if events.len() == 0 {
        (phase, Seq::empty())
    } else {
        let (p, msgs) = run_session(phase, job_id, events.drop_last());
        let (q, m, _) = transition(p, job_id, events.last());
        (
            q,
            match m {
                Some(x) => msgs.push(x),
                None => msgs,
            },
        )
    }
}

proof fn lemma_step_follows_protocol(
    phase: SessionPhaseView,
    job_id: uuid::Uuid,
    event: SolveEventView,
)
    ensures
        ({
            let (q, m, _) = transition(phase, job_id, event);
            match m {
                Some(x) => protocol_next(stage_of(phase), job_id, x) == Some(stage_of(q)),
                None => stage_of(q) == stage_of(phase),
            }
        }),
{
}

/// Every run of a session, whatever the events, sends its messages in the
/// order of the protocol, and the stage reached matches the session's phase.
pub proof fn lemma_every_run_follows_protocol(job_id: uuid::Uuid, events: Seq<SolveEventView>)
    ensures
        protocol_run(job_id, run_session(SessionPhaseView::AwaitingUpload, job_id, events).1)
            == Some(stage_of(run_session(SessionPhaseView::AwaitingUpload, job_id, events).0)),
    decreases events.len(),
{
    if events.len() > 0 {
        let (p, msgs) = run_session(SessionPhaseView::AwaitingUpload, job_id, events.drop_last());
        lemma_every_run_follows_protocol(job_id, events.drop_last());
        lemma_step_follows_protocol(p, job_id, events.last());
        let (q, m, _) = transition(p, job_id, events.last());
        match m {
            Some(x) => {
                assert(msgs.push(x).drop_last() =~= msgs);
            },
            None => {},
        }
    }
}

/// Once a session is closed it stays closed and sends nothing more.
pub proof fn lemma_closed_session_is_silent(job_id: uuid::Uuid, event: SolveEventView)
    ensures
        transition(SessionPhaseView::Closed, job_id, event) == (
            SessionPhaseView::Closed,
            None::<SolveServerMsgView>,
            SolveEffectView::Wait,
        ),
{
}

/// A solution reaches the client only after the job table recorded it.
pub proof fn lemma_solved_only_after_record(
    phase: SessionPhaseView,
    job_id: uuid::Uuid,
    event: SolveEventView,
    result: SolveResult,
)
    requires
        transition(phase, job_id, event).1 == Some(SolveServerMsgView::Solved { result }),
    ensures
        phase == (SessionPhaseView::RecordingSolved { result }),
        event matches SolveEventView::ResultRecorded { outcome: Ok(_) },
{
}

/// When the solver comes back with a report, the session asks to record
/// its outcome whether or not the source count went out before: a solution
/// as solved, a miss as failed with the reason the report gives. Once the
/// record is written the client is told that outcome and the session
/// closes; if writing it fails, the client is told why, and it closes.
pub proof fn lemma_finished_solve_is_recorded_then_reported(
    count_sent: bool,
    job_id: uuid::Uuid,
    report: SolveReport,
    error: Seq<char>,
)
    ensures
        ({
            let (q, _, effect) = transition(
                SessionPhaseView::Solving { count_sent },
                job_id,
                SolveEventView::SolveFinished { result: Ok(report) },
            );
            let written = transition(q, job_id, SolveEventView::ResultRecorded { outcome: Ok(()) });
            let refused = transition(
                q,
                job_id,
                SolveEventView::ResultRecorded { outcome: Err(error) },
            );
            &&& refused == (
                SessionPhaseView::Closed,
                Some(SolveServerMsgView::Failed { reason: error }),
                SolveEffectView::Close,
            )
            &&& match report.solution {
                Some(r) => {
                    &&& effect == SolveEffectView::RecordSolved { result: r }
                    &&& written == (
                        SessionPhaseView::Closed,
                        Some(SolveServerMsgView::Solved { result: r }),
                        SolveEffectView::Close,
                    )
                },
                None => {
                    &&& effect == SolveEffectView::RecordFailed { reason: failure_reason(report) }
                    &&& written == (
                        SessionPhaseView::Closed,
                        Some(SolveServerMsgView::Failed { reason: failure_reason(report) }),
                        SolveEffectView::Close,
                    )
                },
            }
        }),
{
}

/// A report that timed out is failed for its time limit, and any other
/// miss by the number of candidates checked: two misses that did not time
/// out give the same reason only when they verified as many candidates.
pub proof fn lemma_failure_reason_tells_misses_apart(a: SolveReport, b: SolveReport)
    ensures
        a.timed_out ==> failure_reason(a) == "Solve timed out"@,
        !a.timed_out && !b.timed_out && failure_reason(a) == failure_reason(b) ==> a.n_verified
            == b.n_verified,
{
    if !a.timed_out && !b.timed_out && failure_reason(a) == failure_reason(b) {
        let pre = "No solution found ("@;
        let post = " candidates verified)"@;
        let da = decimal(a.n_verified as nat);
        let db = decimal(b.n_verified as nat);
        assert(failure_reason(a) == pre + da + post);
        assert(failure_reason(b) == pre + db + post);
        assert((pre + da + post).len() == pre.len() + da.len() + post.len());
        assert((pre + db + post).len() == pre.len() + db.len() + post.len());
        assert((pre + da + post).subrange(pre.len() as int, (pre.len() + da.len()) as int) =~= da);
        assert((pre + db + post).subrange(pre.len() as int, (pre.len() + db.len()) as int) =~= db);
        assert(da.len() == db.len());
        assert(da =~= db);
        lemma_decimal_injective(a.n_verified as nat, b.n_verified as nat);
    }
}

/// The messages a session sends carry what it was told: `Accepted` names
/// the session's own job; a failed lookup or a failed write is reported
/// with its reason and closes the session; a count goes out as the source
/// count the first time and as the verified count after; the count of a
/// report not preceded by one is the report's source count.
pub proof fn lemma_messages_carry_their_inputs(
    job_id: uuid::Uuid,
    count_sent: bool,
    count: usize,
    error: Seq<char>,
    report: SolveReport,
)
    ensures
        transition(
            SessionPhaseView::AwaitingUpload,
            job_id,
            SolveEventView::UploadLookup { found: true },
        ) == (
            SessionPhaseView::MarkingSolving,
            Some(SolveServerMsgView::Accepted { job_id }),
            SolveEffectView::MarkSolving,
        ),
        transition(
            SessionPhaseView::AwaitingUpload,
            job_id,
            SolveEventView::UploadLookup { found: false },
        ).1 == Some(SolveServerMsgView::Failed { reason: no_upload_reason() }),
        transition(
            SessionPhaseView::AwaitingUpload,
            job_id,
            SolveEventView::UploadLookup { found: false },
        ).2 == SolveEffectView::Close,
        transition(
            SessionPhaseView::MarkingSolving,
            job_id,
            SolveEventView::JobMarked { outcome: Ok(()) },
        ) == (
            SessionPhaseView::Solving { count_sent: false },
            Some(SolveServerMsgView::Extracting { n_sources: None }),
            SolveEffectView::RunSolve,
        ),
        transition(
            SessionPhaseView::MarkingSolving,
            job_id,
            SolveEventView::JobMarked { outcome: Err(error) },
        ) == (
            SessionPhaseView::Closed,
            Some(SolveServerMsgView::Failed { reason: error }),
            SolveEffectView::Close,
        ),
        transition(
            SessionPhaseView::Solving { count_sent },
            job_id,
            SolveEventView::Progress { count },
        ) == (
            SessionPhaseView::Solving { count_sent: true },
            Some(
                if count_sent {
                    SolveServerMsgView::Solving { n_verified: count }
                } else {
                    SolveServerMsgView::Extracting { n_sources: Some(count) }
                },
            ),
            SolveEffectView::Wait,
        ),
        transition(
            SessionPhaseView::Solving { count_sent },
            job_id,
            SolveEventView::SolveFinished { result: Err(error) },
        ) == (
            SessionPhaseView::Closed,
            Some(SolveServerMsgView::Failed { reason: error }),
            SolveEffectView::Close,
        ),
        transition(
            SessionPhaseView::Solving { count_sent },
            job_id,
            SolveEventView::SolveFinished { result: Ok(report) },
        ).1 == if count_sent {
            None
        } else {
            Some(SolveServerMsgView::Extracting { n_sources: Some(report.n_sources) })
        },
{
}

/// The source count message.
pub open spec fn is_count_msg(m: SolveServerMsgView) -> bool {
    m matches SolveServerMsgView::Extracting { n_sources: Some(_) }
}

/// A message that reports on the solver's search.
pub open spec fn is_search_msg(m: SolveServerMsgView) -> bool {
    m is Solving || m is Solved
}

/// A message that ends the session.
pub open spec fn is_final_msg(m: SolveServerMsgView) -> bool {
    m is Solved || m is Failed
}

spec fn rank(stage: ProtocolStage) -> int {
    match stage {
        ProtocolStage::Start => 0,
        ProtocolStage::Opened => 1,
        ProtocolStage::Started => 2,
        ProtocolStage::Counted => 3,
        ProtocolStage::Finished => 4,
    }
}

proof fn lemma_prefix_runs(job_id: uuid::Uuid, msgs: Seq<SolveServerMsgView>, k: int)
    requires
        protocol_run(job_id, msgs) is Some,
        0 <= k <= msgs.len(),
    ensures
        protocol_run(job_id, msgs.take(k)) is Some,
        rank(protocol_run(job_id, msgs.take(k))->0) <= rank(protocol_run(job_id, msgs)->0),
    decreases msgs.len(),
{
    if k < msgs.len() {
        lemma_prefix_runs(job_id, msgs.drop_last(), k);
        assert(msgs.drop_last().take(k) =~= msgs.take(k));
    } else {
        assert(msgs.take(k) =~= msgs);
    }
}

proof fn lemma_run_step(job_id: uuid::Uuid, msgs: Seq<SolveServerMsgView>, i: int)
    requires
        0 <= i < msgs.len(),
    ensures
        protocol_run(job_id, msgs.take(i + 1)) == match protocol_run(job_id, msgs.take(i)) {
            Some(stage) => protocol_next(stage, job_id, msgs[i]),
            None => None,
        },
{
    assert(msgs.take(i + 1).drop_last() =~= msgs.take(i));
}

proof fn lemma_counted_has_count(job_id: uuid::Uuid, msgs: Seq<SolveServerMsgView>)
    requires
        protocol_run(job_id, msgs) == Some(ProtocolStage::Counted),
    ensures
        exists|i: int| 0 <= i < msgs.len() && is_count_msg(#[trigger] msgs[i]),
    decreases msgs.len(),
{
    let prev = msgs.drop_last();
    if is_count_msg(msgs.last()) {
        assert(is_count_msg(msgs[msgs.len() - 1]));
    } else {
        lemma_counted_has_count(job_id, prev);
        let i = choose|i: int| 0 <= i < prev.len() && is_count_msg(#[trigger] prev[i]);
        assert(msgs[i] == prev[i]);
    }
}

/// In every message sequence that follows the protocol: the source count is
/// sent at most once; each `Solving` or `Solved` comes after it; and nothing
/// comes after a `Solved` or a `Failed`.
pub proof fn lemma_protocol_order(job_id: uuid::Uuid, msgs: Seq<SolveServerMsgView>)
    requires
        protocol_run(job_id, msgs) is Some,
    ensures
        forall|i: int, j: int|
            0 <= i < j < msgs.len() ==> !(is_count_msg(#[trigger] msgs[i]) && is_count_msg(
                #[trigger] msgs[j],
            )),
        forall|j: int|
            0 <= j < msgs.len() && is_search_msg(#[trigger] msgs[j]) ==> exists|i: int|
                0 <= i < j && is_count_msg(#[trigger] msgs[i]),
        forall|i: int| 0 <= i < msgs.len() - 1 ==> !is_final_msg(#[trigger] msgs[i]),
{
    assert forall|i: int, j: int|
        0 <= i < j < msgs.len() implies !(is_count_msg(#[trigger] msgs[i]) && is_count_msg(
            #[trigger] msgs[j],
        )) by {
        if is_count_msg(msgs[i]) && is_count_msg(msgs[j]) {
            lemma_prefix_runs(job_id, msgs, i + 1);
            lemma_prefix_runs(job_id, msgs, j + 1);
            lemma_run_step(job_id, msgs, i);
            lemma_run_step(job_id, msgs, j);
            lemma_prefix_runs(job_id, msgs.take(j), i + 1);
            assert(msgs.take(j).take(i + 1) =~= msgs.take(i + 1));
        }
    }
    assert forall|j: int| 0 <= j < msgs.len() && is_search_msg(#[trigger] msgs[j]) implies exists|
        i: int,
    | 0 <= i < j && is_count_msg(#[trigger] msgs[i]) by {
        lemma_prefix_runs(job_id, msgs, j + 1);
        lemma_run_step(job_id, msgs, j);
        lemma_prefix_runs(job_id, msgs, j);
        lemma_counted_has_count(job_id, msgs.take(j));
        let i = choose|i: int| 0 <= i < msgs.take(j).len() && is_count_msg(
            #[trigger] msgs.take(j)[i],
        );
        assert(msgs[i] == msgs.take(j)[i]);
    }
    assert forall|i: int| 0 <= i < msgs.len() - 1 implies !is_final_msg(#[trigger] msgs[i]) by {
        lemma_prefix_runs(job_id, msgs, i + 2);
        lemma_run_step(job_id, msgs, i);
        lemma_run_step(job_id, msgs, i + 1);
        lemma_prefix_runs(job_id, msgs, i);
    }
}

/// The shortest time, in nanoseconds, between two progress reports while
/// the solver runs: 250 milliseconds.
pub const PROGRESS_INTERVAL_NANOS: u128 = 250_000_000;

/// Whether a progress report is due, `elapsed_nanos` after the last one:
/// only once more than the interval has passed.
pub fn progress_due(elapsed_nanos: u128) -> (r: bool)
    ensures
        r == (elapsed_nanos > PROGRESS_INTERVAL_NANOS),
{
    elapsed_nanos > PROGRESS_INTERVAL_NANOS
}

/// The solve session of one job.
pub struct SolveSession {
    job_id: uuid::Uuid,
    phase: SessionPhase,
}

impl View for SolveSession {
    type V = (uuid::Uuid, SessionPhaseView);

    closed spec fn view(&self) -> (uuid::Uuid, SessionPhaseView) {
        (self.job_id, self.phase@)
    }
}

fn text(s: &str) -> (r: String)
    ensures
        r@ == s@,
{
    String::from_str(s)
}

/// Renders why an unsolved job failed.
pub fn describe_failure(report: &SolveReport) -> (reason: String)
    ensures
        reason@ == failure_reason(*report),
{
    if report.timed_out {
        text("Solve timed out")
    } else {
        let mut reason = text("No solution found (");
        append_decimal(&mut reason, report.n_verified as u64);
        reason.append(" candidates verified)");
        reason
    }
}

impl SolveSession {
    /// A new session for the job, before its upload is looked up.
    pub fn new(job_id: uuid::Uuid) -> (s: SolveSession)
        ensures
            s@ == (job_id, SessionPhaseView::AwaitingUpload),
    {
        SolveSession { job_id, phase: SessionPhase::AwaitingUpload }
    }

    /// Whether the session is over.
    pub fn is_closed(&self) -> (r: bool)
        ensures
            r == (self@.1 is Closed),
    {
        match self.phase {
            SessionPhase::Closed => true,
            _ => false,
        }
    }

    /// Takes one event into account: moves the session on and says what the
    /// caller sends and does.
    pub fn step(&mut self, event: SolveEvent) -> (out: StepOutput)
        ensures
            final(self)@.0 == old(self)@.0,
            (
                final(self)@.1,
                match out.message {
                    Some(m) => Some(m@),
                    None => None,
                },
                out.effect@,
            ) == transition(old(self)@.1, old(self)@.0, event@),
    {
        let job_id = self.job_id;
        let (next, message, effect) = match (&self.phase, event) {
            (SessionPhase::AwaitingUpload, SolveEvent::UploadLookup { found }) => {
                if found {
                    (
                        SessionPhase::MarkingSolving,
                        Some(SolveServerMsg::Accepted { job_id }),
                        SolveEffect::MarkSolving,
                    )
                } else {
                    let reason = text("No pending upload for this job ID");
                    (SessionPhase::Closed, Some(SolveServerMsg::Failed { reason }), SolveEffect::Close)
                }
            },
            (SessionPhase::MarkingSolving, SolveEvent::JobMarked { outcome }) => {
                match outcome {
                    Ok(()) => (
                        SessionPhase::Solving { count_sent: false },
                        Some(SolveServerMsg::Extracting { n_sources: None }),
                        SolveEffect::RunSolve,
                    ),
                    Err(e) => (
                        SessionPhase::Closed,
                        Some(SolveServerMsg::Failed { reason: e }),
                        SolveEffect::Close,
                    ),
                }
            },
            (SessionPhase::Solving { count_sent }, SolveEvent::Progress { count }) => {
                if *count_sent {
                    (
                        SessionPhase::Solving { count_sent: true },
                        Some(SolveServerMsg::Solving { n_verified: count }),
                        SolveEffect::Wait,
                    )
                } else {
                    (
                        SessionPhase::Solving { count_sent: true },
                        Some(SolveServerMsg::Extracting { n_sources: Some(count) }),
                        SolveEffect::Wait,
                    )
                }
            },
            (SessionPhase::Solving { count_sent }, SolveEvent::SolveFinished { result }) => {
                match result {
                    Err(e) => (
                        SessionPhase::Closed,
                        Some(SolveServerMsg::Failed { reason: e }),
                        SolveEffect::Close,
                    ),
                    Ok(report) => {
                        let message = if *count_sent {
                            None
                        } else {
                            Some(SolveServerMsg::Extracting { n_sources: Some(report.n_sources) })
                        };
                        match report.solution {
                            Some(result) => (
                                SessionPhase::RecordingSolved { result },
                                message,
                                SolveEffect::RecordSolved { result },
                            ),
                            None => {
                                let reason = describe_failure(&report);
                                let copy = reason.clone();
                                (
                                    SessionPhase::RecordingFailed { reason },
                                    message,
                                    SolveEffect::RecordFailed { reason: copy },
                                )
                            },
                        }
                    },
                }
            },
            (SessionPhase::RecordingSolved { result }, SolveEvent::ResultRecorded { outcome }) => {
                match outcome {
                    Ok(()) => (
                        SessionPhase::Closed,
                        Some(SolveServerMsg::Solved { result: *result }),
                        SolveEffect::Close,
                    ),
                    Err(e) => (
                        SessionPhase::Closed,
                        Some(SolveServerMsg::Failed { reason: e }),
                        SolveEffect::Close,
                    ),
                }
            },
            (SessionPhase::RecordingFailed { reason }, SolveEvent::ResultRecorded { outcome }) => {
                match outcome {
                    Ok(()) => (
                        SessionPhase::Closed,
                        Some(SolveServerMsg::Failed { reason: reason.clone() }),
                        SolveEffect::Close,
                    ),
                    Err(e) => (
                        SessionPhase::Closed,
                        Some(SolveServerMsg::Failed { reason: e }),
                        SolveEffect::Close,
                    ),
                }
            },
            _ => {
                return StepOutput { message: None, effect: SolveEffect::Wait };
            },
        };
        self.phase = next;
        StepOutput { message, effect }
    }
}

} // verus!
