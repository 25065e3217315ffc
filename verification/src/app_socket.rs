//! The server's side of the application socket: a heartbeat on connection,
//! one reply to every message the client sends, and, for every job the
//! client subscribed to, the news of that job.
use crate::protocol::{
    ClientMsg, JobStatus, ServerMsg, ServerMsgView, SolveResult, SolveServerMsg, SolveServerMsgView,
};
use vstd::prelude::*;
use vstd::string::*;

verus! {

/// The message sent as soon as a client connects.
pub fn greeting() -> (m: ServerMsg)
    ensures
        m@ == ServerMsgView::Heartbeat,
{
    ServerMsg::Heartbeat
}

/// The reply to what arrived from the client: a heartbeat for every message
/// (a ping, or a job subscription), and an error naming the problem for
/// anything that could not be decoded.
pub fn reply(incoming: Result<ClientMsg, String>) -> (m: ServerMsg)
    ensures
        match incoming {
            Ok(_) => m@ == ServerMsgView::Heartbeat,
            Err(e) => m@ == (ServerMsgView::Error { message: "Decode error: "@ + e@ }),
        },
{
    match incoming {
        Ok(ClientMsg::Ping) => ServerMsg::Heartbeat,
        Ok(ClientMsg::SubscribeJob { .. }) => ServerMsg::Heartbeat,
        Err(e) => {
            let mut message = String::from_str("Decode error: ");
            message.append(e.as_str());
            ServerMsg::Error { message }
        },
    }
}

/// `Uuid`'s `==`: the type derives `PartialEq` over its sixteen bytes, so two
/// identifiers compare equal exactly when they are the same identifier.
pub assume_specification[ <uuid::Uuid as PartialEq>::eq ](a: &uuid::Uuid, b: &uuid::Uuid) -> (r:
    bool)
    ensures
        r == (*a == *b),
;

/// News of a job, as the application socket passes it to subscribers.
#[derive(Debug, Clone, Copy)]
pub enum JobNotice {
    /// The job was accepted and queued.
    Accepted { job_id: uuid::Uuid },
    /// The job's status changed.
    Progress { job_id: uuid::Uuid, status: JobStatus },
    /// The job was solved.
    Completed { job_id: uuid::Uuid, result: SolveResult },
}

/// The job a notice is about.
pub open spec fn notice_job(n: JobNotice) -> uuid::Uuid {
    match n {
        JobNotice::Accepted { job_id } => job_id,
        JobNotice::Progress { job_id, .. } => job_id,
        JobNotice::Completed { job_id, .. } => job_id,
    }
}

/// The message that passes a notice to a subscriber.
pub open spec fn notice_message(n: JobNotice) -> ServerMsgView {
    match n {
        JobNotice::Accepted { job_id } => ServerMsgView::JobAccepted { job_id },
        JobNotice::Progress { job_id, status } => ServerMsgView::JobProgress { job_id, status },
        JobNotice::Completed { job_id, result } => ServerMsgView::JobCompleted { job_id, result },
    }
}

/// The notice, if any, that a message of job `job_id`'s solve socket makes
/// for the application socket: the start of extraction puts the job in the
/// solving state, a failure in the failed state, and a solution completes
/// it. The other messages are only for the solve socket.
pub open spec fn solve_notice(job_id: uuid::Uuid, m: SolveServerMsgView) -> Option<JobNotice> {
    match m {
        SolveServerMsgView::Extracting { n_sources: None } => Some(
            JobNotice::Progress { job_id, status: JobStatus::Solving },
        ),
        SolveServerMsgView::Solved { result } => Some(JobNotice::Completed { job_id, result }),
        SolveServerMsgView::Failed { .. } => Some(
            JobNotice::Progress { job_id, status: JobStatus::Failed },
        ),
        _ => None,
    }
}

/// The notice a message of job `job_id`'s solve socket makes.
pub fn notice_for(job_id: uuid::Uuid, m: &SolveServerMsg) -> (r: Option<JobNotice>)
    ensures
        r == solve_notice(job_id, m@),
{
    match m {
        SolveServerMsg::Extracting { n_sources: None } => Some(
            JobNotice::Progress { job_id, status: JobStatus::Solving },
        ),
        SolveServerMsg::Solved { result } => Some(
            JobNotice::Completed { job_id, result: *result },
        ),
        SolveServerMsg::Failed { .. } => Some(
            JobNotice::Progress { job_id, status: JobStatus::Failed },
        ),
        _ => None,
    }
}

/// The server's side of one application socket: the jobs its client has
/// subscribed to.
pub struct AppConnection {
    subscriptions: Vec<uuid::Uuid>,
}

impl View for AppConnection {
    type V = Set<uuid::Uuid>;

    /// The jobs the client subscribed to.
    closed spec fn view(&self) -> Set<uuid::Uuid> {
        self.subscriptions@.to_set()
    }
}

/// The jobs subscribed to after `incoming` arrived on a connection that had
/// subscribed to `s`: each subscription adds its job.
pub open spec fn client_step(s: Set<uuid::Uuid>, incoming: Result<ClientMsg, String>) -> Set<
    uuid::Uuid,
> {
    match incoming {
        Ok(ClientMsg::SubscribeJob { job_id }) => s.insert(job_id),
        _ => s,
    }
}

/// The jobs subscribed to after the messages `msgs` arrived, in order, on a
/// connection that had subscribed to `s`.
pub open spec fn subscriptions_after(s: Set<uuid::Uuid>, msgs: Seq<Result<ClientMsg, String>>) -> Set<
    uuid::Uuid,
>
    decreases msgs.len(),
{
    if msgs.len() == 0 {
        s
    } else {
        client_step(subscriptions_after(s, msgs.drop_last()), msgs.last())
    }
}

/// Whether message `m` subscribes to job `id`.
pub open spec fn is_subscription(m: Result<ClientMsg, String>, id: uuid::Uuid) -> bool {
    m matches Ok(ClientMsg::SubscribeJob { job_id }) && job_id == id
}

/// Whether one of `msgs` subscribes to job `id`.
pub open spec fn subscribes_to(msgs: Seq<Result<ClientMsg, String>>, id: uuid::Uuid) -> bool {
    exists|i: int| 0 <= i < msgs.len() && is_subscription(#[trigger] msgs[i], id)
}

impl AppConnection {
    /// A connection that has subscribed to nothing yet.
    pub fn new() -> (c: AppConnection)
        ensures
            c@ == Set::<uuid::Uuid>::empty(),
    {
        let c = AppConnection { subscriptions: Vec::new() };
        assert(c@ =~= Set::<uuid::Uuid>::empty());
        c
    }

    /// Takes in what arrived from the client: records a subscription, and
    /// answers as `reply` does.
    pub fn on_client(&mut self, incoming: Result<ClientMsg, String>) -> (m: ServerMsg)
        ensures
            final(self)@ == client_step(old(self)@, incoming),
            match incoming {
                Ok(_) => m@ == ServerMsgView::Heartbeat,
                Err(e) => m@ == (ServerMsgView::Error { message: "Decode error: "@ + e@ }),
            },
    {
        let ghost before = self.subscriptions@;
        match &incoming {
            Ok(ClientMsg::SubscribeJob { job_id }) => {
                self.subscriptions.push(*job_id);
                proof {
                    before.lemma_push_to_set_commute(*job_id);
                }
            },
            _ => {},
        }
        reply(incoming)
    }

    /// Whether the client subscribed to job `job_id`.
    pub fn is_subscribed(&self, job_id: &uuid::Uuid) -> (r: bool)
        ensures
            r == self@.contains(*job_id),
    {
        let mut i: usize = 0;
        while i < self.subscriptions.len()
            invariant
                i <= self.subscriptions@.len(),
                forall|k: int| 0 <= k < i ==> self.subscriptions@[k] != *job_id,
            decreases self.subscriptions@.len() - i,
        {
            if self.subscriptions[i] == *job_id {
                assert(self.subscriptions@.to_set().contains(self.subscriptions@[i as int]));
                return true;
            }
            i = i + 1;
        }
        assert(!self.subscriptions@.contains(*job_id));
        false
    }

    /// The message that passes `notice` to this client: `None` unless the
    /// client subscribed to the job it is about.
    pub fn on_notice(&self, notice: JobNotice) -> (m: Option<ServerMsg>)
        ensures
            m is Some == self@.contains(notice_job(notice)),
            m matches Some(msg) ==> msg@ == notice_message(notice),
    {
        let job_id = match notice {
            JobNotice::Accepted { job_id } => job_id,
            JobNotice::Progress { job_id, .. } => job_id,
            JobNotice::Completed { job_id, .. } => job_id,
        };
        if !self.is_subscribed(&job_id) {
            return None;
        }
        Some(
            match notice {
                JobNotice::Accepted { job_id } => ServerMsg::JobAccepted { job_id },
                JobNotice::Progress { job_id, status } => ServerMsg::JobProgress { job_id, status },
                JobNotice::Completed { job_id, result } => ServerMsg::JobCompleted { job_id, result },
            },
        )
    }
}

/// A client is passed the news of a job exactly when, since it connected,
/// it sent a subscription to that job; subscriptions are never dropped.
pub proof fn lemma_news_reaches_subscribers_only(msgs: Seq<Result<ClientMsg, String>>, id: uuid::Uuid)
    ensures
        subscriptions_after(Set::empty(), msgs).contains(id) == subscribes_to(msgs, id),
    decreases msgs.len(),
{
    if msgs.len() > 0 {
        let prefix = msgs.drop_last();
        lemma_news_reaches_subscribers_only(prefix, id);
        if subscribes_to(prefix, id) {
            let i = choose|i: int| 0 <= i < prefix.len() && is_subscription(#[trigger] prefix[i], id);
            assert(msgs[i] == prefix[i]);
        }
        if subscribes_to(msgs, id) {
            let i = choose|i: int| 0 <= i < msgs.len() && is_subscription(#[trigger] msgs[i], id);
            if i < msgs.len() - 1 {
                assert(prefix[i] == msgs[i]);
            }
        }
    }
}

/// A notice reaches the client as the message of its kind, about the same
/// job and with the same status or result.
pub proof fn lemma_notice_message_carries_the_notice(n: JobNotice)
    ensures
        match n {
            JobNotice::Accepted { job_id } => notice_message(n) == ServerMsgView::JobAccepted {
                job_id,
            },
            JobNotice::Progress { job_id, status } => notice_message(n)
                == ServerMsgView::JobProgress { job_id, status },
            JobNotice::Completed { job_id, result } => notice_message(n)
                == ServerMsgView::JobCompleted { job_id, result },
        },
{
}

/// The news a solve socket makes is about its own job: a solution completes
/// the job with that solution, a failure moves it to failed, and the start
/// of extraction to solving; the counts and the opening make no news.
pub proof fn lemma_solve_news_is_about_its_job(job_id: uuid::Uuid, m: SolveServerMsgView)
    ensures
        solve_notice(job_id, m) matches Some(n) ==> notice_job(n) == job_id,
        m matches SolveServerMsgView::Solved { result } ==> solve_notice(job_id, m) == Some(
            JobNotice::Completed { job_id, result },
        ),
        m is Failed ==> solve_notice(job_id, m) == Some(
            JobNotice::Progress { job_id, status: JobStatus::Failed },
        ),
        m == (SolveServerMsgView::Extracting { n_sources: None }) ==> solve_notice(job_id, m)
            == Some(JobNotice::Progress { job_id, status: JobStatus::Solving }),
        (m is Accepted || m is Solving || (m matches SolveServerMsgView::Extracting {
            n_sources: Some(_),
        })) ==> solve_notice(job_id, m) is None,
{
}

} // verus!
