//! The network actor's state and decisions. The actor itself (timers, the
//! command queue and the HTTP calls) runs outside; it asks this state what to
//! fetch next and hands each outcome back to be turned into an event.

use vstd::prelude::*;
use crate::model::{Deployment, Project};
use crate::text::{stripped, strip_ansi};

verus! {

/// A request from the interface to the actor.
#[derive(Debug)]
pub enum NetworkCommand {
    Deployments(Option<String>),
    Projects,
    Logs(String),
    StartStream(String),
    Redeploy(String),
    Cancel(String),
}

/// A message from the actor to the interface.
#[derive(Debug)]
pub enum NetworkEvent {
    Deployments(Vec<Deployment>),
    Projects(Vec<Project>),
    /// All recent log lines of a deployment, replacing what was shown.
    Logs(String, Vec<String>),
    /// Log lines newer than those already delivered, to be appended.
    LogChunk(String, Vec<String>),
    Info(String),
    Error(String),
}

/// One event of a deployment's build log.
#[derive(Debug)]
pub struct LogEvent {
    pub id: Option<String>,
    pub text: String,
    pub created: u64,
}

/// A remote operation for the actor to perform.
#[derive(Debug)]
pub enum Request {
    /// List deployments, of one project or of all.
    FetchDeployments(Option<String>),
    FetchProjects,
    /// Fetch the latest page of a deployment's log events, to replace what
    /// is shown.
    FetchLogs(String),
    /// Poll the streamed deployment's log for events after a timestamp (the
    /// latest page where absent), to append to what is shown.
    PollLogs(String, Option<u64>),
    Redeploy(String),
    Cancel(String),
}

/// The actor's own state: the project filter and the log-stream cursor.
#[derive(Debug)]
pub struct Network {
    pub token: String,
    /// The deployment whose log is being streamed.
    pub streaming_id: Option<String>,
    /// Timestamp of the last log event delivered.
    pub last_log_timestamp: Option<u64>,
    pub initial_project_id: Option<String>,
    /// Id of the last log event delivered.
    pub last_log_id: Option<String>,
    /// The project whose deployments the refresh timer lists.
    pub current_project_id: Option<String>,
}

/// A copy of an optional string.
pub fn clone_opt(o: &Option<String>) -> (r: Option<String>)
    ensures
        r == *o,
{
    match o {
        Some(s) => Some(s.clone()),
        None => None,
    }
}

/// The characters of an optional string.
pub open spec fn opt_view(o: Option<String>) -> Option<Seq<char>> {
    match o {
        Some(s) => Some(s@),
        None => None,
    }
}

/// Whether the event carries the id `l`.
pub open spec fn has_id(e: LogEvent, l: Seq<char>) -> bool {
    match e.id {
        Some(x) => x@ == l,
        None => false,
    }
}

/// Position of the first event of `s` that carries the id `l`.
pub open spec fn first_with_id(s: Seq<LogEvent>, l: Seq<char>) -> Option<int>
    decreases s.len(),
{
    if s.len() == 0 {
        None
    } else if has_id(s[0], l) {
        Some(0)
    } else {
        match first_with_id(s.drop_first(), l) {
            Some(k) => Some(k + 1),
            None => None,
        }
    }
}

/// Where the new part of a batch begins: right after the first event that
/// carries the cursor's id, or at the start where none does.
pub open spec fn dedup_start(s: Seq<LogEvent>, last: Option<Seq<char>>) -> int {
    match last {
        Some(l) => match first_with_id(s, l) {
            Some(k) => k + 1,
            None => 0,
        },
        None => 0,
    }
}

/// The events of a batch that are new to a cursor whose last id is `last`.
pub open spec fn kept(s: Seq<LogEvent>, last: Option<Seq<char>>) -> Seq<LogEvent> {
    s.skip(dedup_start(s, last))
}

proof fn lemma_first_with_id(s: Seq<LogEvent>, l: Seq<char>)
    ensures
        match first_with_id(s, l) {
            Some(k) => 0 <= k < s.len() && has_id(s[k], l) && forall|j: int|
                0 <= j < k ==> !has_id(#[trigger] s[j], l),
            None => forall|j: int| 0 <= j < s.len() ==> !has_id(#[trigger] s[j], l),
        },
    decreases s.len(),
{
    if s.len() > 0 {
        lemma_first_with_id(s.drop_first(), l);
        assert forall|j: int| 1 <= j < s.len() implies s[j] == s.drop_first()[j - 1] by {}
        if !has_id(s[0], l) {
            match first_with_id(s.drop_first(), l) {
                Some(k) => {
                    assert forall|j: int| 0 <= j < k + 1 implies !has_id(#[trigger] s[j], l) by {
                        if j > 0 {
                            assert(s[j] == s.drop_first()[j - 1]);
                        }
                    }
                }
                None => {
                    assert forall|j: int| 0 <= j < s.len() implies !has_id(#[trigger] s[j], l) by {
                        if j > 0 {
                            assert(s[j] == s.drop_first()[j - 1]);
                        }
                    }
                }
            }
        }
    }
}

/// Deduplication of a log batch: where the cursor's last id `e` occurs in the
/// batch, what is kept is exactly the part strictly after its first
/// occurrence; where it does not occur, the whole batch is kept.
pub proof fn lemma_dedup(s: Seq<LogEvent>, e: Seq<char>)
    ensures
        (exists|i: int| 0 <= i < s.len() && has_id(#[trigger] s[i], e)) ==> exists|k: int|
            0 <= k < s.len() && has_id(#[trigger] s[k], e) && (forall|j: int|
                0 <= j < k ==> !has_id(#[trigger] s[j], e)) && kept(s, Some(e)) == s.skip(k + 1),
        (forall|i: int| 0 <= i < s.len() ==> !has_id(#[trigger] s[i], e)) ==> kept(s, Some(e))
            == s,
{
    lemma_first_with_id(s, e);
    match first_with_id(s, e) {
        Some(k) => {
            assert(has_id(s[k], e));
        }
        None => {
            assert(s.skip(0) =~= s);
        }
    }
}

/// Index of the first event that carries the id `l`.
fn position_of_id(events: &Vec<LogEvent>, l: &String) -> (r: Option<usize>)
    ensures
        r matches Some(k) ==> k < events.len() && first_with_id(events@, l@) == Some(k as int),
        r is None ==> first_with_id(events@, l@) is None,
{
    proof {
        lemma_first_with_id(events@, l@);
    }
    let mut i: usize = 0;
    while i < events.len()
        invariant
            0 <= i <= events@.len(),
            forall|j: int| 0 <= j < i ==> !has_id(#[trigger] events@[j], l@),
            match first_with_id(events@, l@) {
                Some(k) => 0 <= k < events@.len() && has_id(events@[k], l@) && forall|j: int|
                    0 <= j < k ==> !has_id(#[trigger] events@[j], l@),
                None => forall|j: int|
                    0 <= j < events@.len() ==> !has_id(#[trigger] events@[j], l@),
            },
        decreases events@.len() - i,
    {
        let found = match &events[i].id {
            Some(x) => *x == *l,
            None => false,
        };
        if found {
            assert(has_id(events@[i as int], l@));
            return Some(i);
        }
        i = i + 1;
    }
    None
}

/// Index at which the events new to a cursor whose last id is `last` begin.
pub fn dedup_index(events: &Vec<LogEvent>, last: &Option<String>) -> (r: usize)
    ensures
        r as int == dedup_start(events@, opt_view(*last)),
        r <= events@.len(),
{
    proof {
        match last {
            Some(l) => lemma_first_with_id(events@, l@),
            None => {},
        }
    }
    match last {
        Some(l) => match position_of_id(events, l) {
            Some(k) => k + 1,
            None => 0,
        },
        None => 0,
    }
}

/// The log lines of `events` from `start` on, with control sequences
/// removed.
pub fn log_lines(events: &Vec<LogEvent>, start: usize) -> (r: Vec<String>)
    requires
        start <= events@.len(),
    ensures
        r@.len() == events@.len() - start,
        forall|j: int| 0 <= j < r@.len() ==> #[trigger] r@[j]@ == stripped(events@[start + j].text@),
{
    let mut out: Vec<String> = Vec::new();
    let mut i: usize = start;
    while i < events.len()
        invariant
            start <= i <= events@.len(),
            out@.len() == i - start,
            forall|j: int| 0 <= j < out@.len() ==> #[trigger] out@[j]@ == stripped(events@[start + j].text@),
        decreases events@.len() - i,
    {
        out.push(strip_ansi(events[i].text.as_str()));
        i = i + 1;
    }
    out
}

/// Whether `lines` are the texts of `s`, one for one, without control
/// sequences.
pub open spec fn lines_match(lines: Seq<String>, s: Seq<LogEvent>) -> bool {
    lines.len() == s.len() && forall|j: int| 0 <= j < s.len() ==> #[trigger] lines[j]@ == stripped(s[j].text@)
}

/// The actor's state after it has handled `cmd`.
pub open spec fn after_command(s: Network, cmd: NetworkCommand) -> Network {
    match cmd {
        NetworkCommand::Deployments(p) => Network { current_project_id: p, ..s },
        NetworkCommand::StartStream(id) => Network {
            streaming_id: Some(id),
            last_log_timestamp: None,
            last_log_id: None,
            ..s
        },
        _ => s,
    }
}

/// The remote operation that `cmd` calls for at once, if any.
pub open spec fn request_for(cmd: NetworkCommand) -> Option<Request> {
    match cmd {
        NetworkCommand::Deployments(p) => Some(Request::FetchDeployments(p)),
        NetworkCommand::Projects => Some(Request::FetchProjects),
        NetworkCommand::Logs(id) => Some(Request::FetchLogs(id)),
        NetworkCommand::StartStream(_) => None,
        NetworkCommand::Redeploy(id) => Some(Request::Redeploy(id)),
        NetworkCommand::Cancel(id) => Some(Request::Cancel(id)),
    }
}

/// Position in `k` of its most recent event: the one with the latest
/// timestamp, the later one among equals.
pub open spec fn newest(k: Seq<LogEvent>) -> int
    decreases k.len(),
{
    if k.len() <= 1 {
        0
    } else {
        let j = newest(k.drop_last());
        if k.last().created >= k[j].created {
            k.len() - 1
        } else {
            j
        }
    }
}

proof fn lemma_newest(k: Seq<LogEvent>)
    requires
        k.len() > 0,
    ensures
        0 <= newest(k) < k.len(),
        forall|i: int| 0 <= i < k.len() ==> (#[trigger] k[i]).created <= k[newest(k)].created,
    decreases k.len(),
{
    if k.len() > 1 {
        let d = k.drop_last();
        lemma_newest(d);
        assert forall|i: int| 0 <= i < k.len() implies (#[trigger] k[i]).created <= k[newest(k)].created by {
            if i < k.len() - 1 {
                assert(k[i] == d[i]);
                assert(k[newest(d)] == d[newest(d)]);
            }
        }
    }
}

/// The actor's state once the batch `k` of new log events has been
/// delivered: the cursor moves to the batch's most recent event, keeping
/// that event's id where it has one, unless that event is older than the
/// cursor, which never moves back.
pub open spec fn advanced(s: Network, k: Seq<LogEvent>) -> Network {
    let e = k[newest(k)];
    match s.last_log_timestamp {
        Some(t) if e.created < t => s,
        _ => Network {
            last_log_timestamp: Some(e.created),
            last_log_id: match e.id {
                Some(x) => Some(x),
                None => s.last_log_id,
            },
            ..s
        },
    }
}

/// Position of the most recent of the events of `events` from `start` on.
fn newest_index(events: &Vec<LogEvent>, start: usize) -> (r: usize)
    requires
        start < events.len(),
    ensures
        start <= r < events@.len(),
        r - start == newest(events@.skip(start as int)),
{
    let ghost k = events@.skip(start as int);
    let mut best: usize = start;
    let mut i: usize = start + 1;
    assert(k.take(1).len() == 1);
    while i < events.len()
        invariant
            start < i <= events@.len(),
            k == events@.skip(start as int),
            start <= best < i,
            best - start == newest(k.take(i - start)),
        decreases events@.len() - i,
    {
        let ghost m = (i - start) as int;
        assert(k.take(m + 1).drop_last() =~= k.take(m));
        assert(k.take(m + 1).last() == events@[i as int]);
        assert(k.take(m)[best - start] == events@[best as int]);
        proof {
            lemma_newest(k.take(m));
        }
        if events[i].created >= events[best].created {
            best = i;
        }
        i = i + 1;
    }
    assert(k.take(events@.len() - start) =~= k);
    best
}

impl Network {
    /// An actor with no log stream, listing the deployments of
    /// `initial_project_id` (of all projects where absent).
    pub fn new(token: String, initial_project_id: Option<String>) -> (r: Network)
        ensures
            r.token == token,
            r.streaming_id is None,
            r.last_log_timestamp is None,
            r.last_log_id is None,
            r.initial_project_id == initial_project_id,
            r.current_project_id == initial_project_id,
    {
        Network {
            token,
            streaming_id: None,
            last_log_timestamp: None,
            current_project_id: clone_opt(&initial_project_id),
            initial_project_id,
            last_log_id: None,
        }
    }

    /// What the actor fetches when it starts: the projects, then the
    /// deployments of the initial project.
    pub fn startup_requests(&self) -> (r: Vec<Request>)
        ensures
            r@ == seq![Request::FetchProjects, Request::FetchDeployments(self.initial_project_id)],
    {
        let mut r: Vec<Request> = Vec::new();
        r.push(Request::FetchProjects);
        r.push(Request::FetchDeployments(clone_opt(&self.initial_project_id)));
        assert(r@ =~= seq![Request::FetchProjects, Request::FetchDeployments(self.initial_project_id)]);
        r
    }

    /// What the deployment-refresh timer asks for: the deployments of the
    /// tracked project.
    pub fn on_refresh_tick(&self) -> (r: Request)
        ensures
            r == Request::FetchDeployments(self.current_project_id),
    {
        Request::FetchDeployments(clone_opt(&self.current_project_id))
    }

    /// What the log-poll timer asks for: the events of the streamed
    /// deployment after the cursor, while a stream is set.
    pub fn on_log_tick(&self) -> (r: Option<Request>)
        ensures
            r == match self.streaming_id {
                Some(id) => Some(Request::PollLogs(id, self.last_log_timestamp)),
                None => None,
            },
    {
        match &self.streaming_id {
            Some(id) => Some(Request::PollLogs(id.clone(), self.last_log_timestamp)),
            None => None,
        }
    }

    /// Takes in a command from the interface and says which remote operation
    /// it calls for; starting a stream resets the cursor and fetches nothing.
    pub fn handle_command(&mut self, cmd: NetworkCommand) -> (r: Option<Request>)
        ensures
            *final(self) == after_command(*old(self), cmd),
            r == request_for(cmd),
    {
        match cmd {
            NetworkCommand::Deployments(p) => {
                self.current_project_id = clone_opt(&p);
                Some(Request::FetchDeployments(p))
            },
            NetworkCommand::Projects => Some(Request::FetchProjects),
            NetworkCommand::Logs(id) => Some(Request::FetchLogs(id)),
            NetworkCommand::StartStream(id) => {
                self.streaming_id = Some(id);
                self.last_log_timestamp = None;
                self.last_log_id = None;
                None
            },
            NetworkCommand::Redeploy(id) => Some(Request::Redeploy(id)),
            NetworkCommand::Cancel(id) => Some(Request::Cancel(id)),
        }
    }

    /// Takes in a fetched batch of log events of `deployment_id`, answering
    /// a poll of the stream when `polled`, a full fetch otherwise. Only the
    /// events new to the cursor are delivered: as a chunk to append for a
    /// poll, as a full replacement for a full fetch. Nothing new, nothing
    /// delivered and the cursor stays; the cursor's timestamp never goes
    /// back.
    pub fn apply_logs(&mut self, deployment_id: String, polled: bool, events: Vec<LogEvent>) -> (r: Option<NetworkEvent>)
        ensures
            ({
                let k = kept(events@, opt_view(old(self).last_log_id));
                &&& k.len() == 0 ==> r is None && *final(self) == *old(self)
                &&& k.len() > 0 ==> *final(self) == advanced(*old(self), k)
                &&& k.len() > 0 ==> match r {
                    Some(NetworkEvent::LogChunk(id, lines)) => polled && id == deployment_id
                        && lines_match(lines@, k),
                    Some(NetworkEvent::Logs(id, lines)) => !polled && id == deployment_id
                        && lines_match(lines@, k),
                    _ => false,
                }
            }),
            old(self).last_log_timestamp matches Some(t) ==> (final(self).last_log_timestamp matches Some(u)
                && u >= t),
    {
        let ghost k = kept(events@, opt_view(self.last_log_id));
        let start = dedup_index(&events, &self.last_log_id);
        if start >= events.len() {
            assert(k.len() == 0);
            return None;
        }
        let b = newest_index(&events, start);
        assert(k[newest(k)] == events@[b as int]);
        let created = events[b].created;
        let moves = match self.last_log_timestamp {
            Some(t) => created >= t,
            None => true,
        };
        if moves {
            self.last_log_timestamp = Some(created);
            match &events[b].id {
                Some(x) => {
                    self.last_log_id = Some(x.clone());
                },
                None => {},
            }
        }
        let lines = log_lines(&events, start);
        assert forall|j: int| 0 <= j < k.len() implies #[trigger] lines@[j]@ == stripped(k[j].text@) by {
            assert(k[j] == events@[start + j]);
        }
        if polled {
            Some(NetworkEvent::LogChunk(deployment_id, lines))
        } else {
            Some(NetworkEvent::Logs(deployment_id, lines))
        }
    }
}

} // verus!
