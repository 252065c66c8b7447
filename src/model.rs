//! Records of the deployment platform: the remote form in which they arrive
//! and the form that the dashboard keeps, with the mapping between the two.

use vstd::prelude::*;
use vstd::string::StrSliceExecFns;
use vstd::string::StringExecFns;
use crate::text::{decimal, is_prefix, push_decimal, starts_with, str_eq};

verus! {

/// State of a deployment as the dashboard shows it.
#[derive(Clone, Copy, Debug, PartialEq, Eq, Structural)]
pub enum Status {
    Ready,
    Error,
    Building,
    Canceled,
    Initializing,
}

/// A deployment as the dashboard keeps it.
#[derive(Debug)]
pub struct Deployment {
    pub id: String,
    pub name: String,
    pub repo: String,
    pub status: Status,
    pub commit_msg: String,
    pub time: String,
    pub timestamp: u64,
    pub duration_ms: u64,
    pub domain: String,
    pub branch: String,
    pub creator: String,
    pub target: String,
    pub short_id: String,
}

/// A project of the platform.
#[derive(Debug)]
pub struct Project {
    pub id: String,
    pub name: String,
}

/// A deployment as the platform's listing describes it.
#[derive(Debug)]
pub struct VercelDeployment {
    pub uid: String,
    pub name: String,
    pub url: String,
    pub created: u64,
    pub ready: Option<u64>,
    pub state: String,
    pub creator: Creator,
    pub meta: Option<Meta>,
    pub target: Option<String>,
}

/// Who started a deployment.
#[derive(Debug)]
pub struct Creator {
    pub username: String,
}

/// Source-control metadata of a deployment, each part possibly absent.
#[derive(Debug)]
pub struct Meta {
    pub github_commit_message: Option<String>,
    pub github_repo: Option<String>,
    pub github_commit_ref: Option<String>,
}

impl Deployment {
    /// A copy of this deployment, field for field.
    pub fn duplicate(&self) -> (r: Deployment)
        ensures
            r == *self,
    {
        Deployment {
            id: self.id.clone(),
            name: self.name.clone(),
            repo: self.repo.clone(),
            status: self.status,
            commit_msg: self.commit_msg.clone(),
            time: self.time.clone(),
            timestamp: self.timestamp,
            duration_ms: self.duration_ms,
            domain: self.domain.clone(),
            branch: self.branch.clone(),
            creator: self.creator.clone(),
            target: self.target.clone(),
            short_id: self.short_id.clone(),
        }
    }
}

impl Project {
    /// A copy of this project, field for field.
    pub fn duplicate(&self) -> (r: Project)
        ensures
            r == *self,
    {
        Project { id: self.id.clone(), name: self.name.clone() }
    }
}

/// The status that a remote state name stands for; an unknown name counts as
/// a failure rather than as success.
pub open spec fn status_of(state: Seq<char>) -> Status {
    if state == "READY"@ {
        Status::Ready
    } else if state == "ERROR"@ || state == "CANCELED"@ {
        Status::Error
    } else if state == "BUILDING"@ {
        Status::Building
    } else if state == "QUEUED"@ || state == "INITIALIZING"@ {
        Status::Initializing
    } else {
        Status::Error
    }
}

/// Maps a remote state name to a status.
pub fn map_status(state: &str) -> (r: Status)
    ensures
        r == status_of(state@),
{
    if str_eq(state, "READY") {
        Status::Ready
    } else if str_eq(state, "ERROR") || str_eq(state, "CANCELED") {
        Status::Error
    } else if str_eq(state, "BUILDING") {
        Status::Building
    } else if str_eq(state, "QUEUED") || str_eq(state, "INITIALIZING") {
        Status::Initializing
    } else {
        Status::Error
    }
}

/// `a - b`, or zero where `b` is the larger.
pub open spec fn sat_sub(a: u64, b: u64) -> nat {
    if a >= b {
        (a - b) as nat
    } else {
        0
    }
}

/// Milliseconds from creation to readiness, zero while not ready.
pub open spec fn duration_of(created: u64, ready: Option<u64>) -> nat {
    match ready {
        Some(t) => sat_sub(t, created),
        None => 0,
    }
}

/// How long ago a moment was, in the coarsest unit below a day count.
pub open spec fn age_label(now_ms: u64, created: u64) -> Seq<char> {
    let secs = sat_sub(now_ms, created) / 1000;
    if secs < 60 {
        "Just now"@
    } else if secs < 3600 {
        decimal(secs / 60) + "m ago"@
    } else if secs < 86400 {
        decimal(secs / 3600) + "h ago"@
    } else {
        decimal(secs / 86400) + "d ago"@
    }
}

/// Renders how long before `now_ms` the moment `created` was.
pub fn time_ago(now_ms: u64, created: u64) -> (r: String)
    ensures
        r@ == age_label(now_ms, created),
{
    let secs = now_ms.saturating_sub(created) / 1000;
    if secs < 60 {
        return String::from_str("Just now");
    }
    let mut s = String::new();
    if secs < 3600 {
        push_decimal(&mut s, secs / 60);
        s.append("m ago");
    } else if secs < 86400 {
        push_decimal(&mut s, secs / 3600);
        s.append("h ago");
    } else {
        push_decimal(&mut s, secs / 86400);
        s.append("d ago");
    }
    s
}

/// A short form of a deployment id: without its "dpl_" prefix, at most nine
/// characters.
pub open spec fn short_id_of(uid: Seq<char>) -> Seq<char> {
    let s = if is_prefix("dpl_"@, uid) {
        uid.skip("dpl_"@.len() as int)
    } else {
        uid
    };
    if s.len() > 9 {
        s.take(9)
    } else {
        s
    }
}

/// Shortens a deployment id for display.
pub fn short_id(uid: &str) -> (r: String)
    ensures
        r@ == short_id_of(uid@),
{
    let n = uid.unicode_len();
    let prefix = "dpl_";
    let start: usize = if starts_with(uid, prefix) {
        prefix.unicode_len()
    } else {
        0
    };
    let end: usize = if n - start > 9 {
        start + 9
    } else {
        n
    };
    let r = String::from_str(uid.substring_char(start, end));
    assert(r@ =~= short_id_of(uid@));
    r
}

/// `o`'s characters, or `d` where `o` is absent.
pub open spec fn text_or(o: Option<String>, d: Seq<char>) -> Seq<char> {
    match o {
        Some(s) => s@,
        None => d,
    }
}

/// The commit message of a deployment's metadata.
pub open spec fn commit_msg_of(meta: Option<Meta>) -> Seq<char> {
    match meta {
        Some(m) => text_or(m.github_commit_message, "No commit info"@),
        None => "No commit info"@,
    }
}

/// The repository of a deployment's metadata, else the deployment's name.
pub open spec fn repo_of(meta: Option<Meta>, name: Seq<char>) -> Seq<char> {
    match meta {
        Some(m) => text_or(m.github_repo, name),
        None => name,
    }
}

/// The branch of a deployment's metadata, "main" where it gives none.
pub open spec fn branch_of(meta: Option<Meta>) -> Seq<char> {
    match meta {
        Some(m) => text_or(m.github_commit_ref, "main"@),
        None => "main"@,
    }
}

/// Whether `r` is what the remote record `d` becomes at time `now_ms`.
pub open spec fn decoded(d: VercelDeployment, now_ms: u64, r: Deployment) -> bool {
    &&& r.id@ == d.uid@
    &&& r.name@ == d.name@
    &&& r.repo@ == repo_of(d.meta, d.name@)
    &&& r.status == status_of(d.state@)
    &&& r.commit_msg@ == commit_msg_of(d.meta)
    &&& r.time@ == age_label(now_ms, d.created)
    &&& r.timestamp == d.created
    &&& r.duration_ms == duration_of(d.created, d.ready)
    &&& r.domain@ == d.url@
    &&& r.branch@ == branch_of(d.meta)
    &&& r.creator@ == d.creator.username@
    &&& r.target@ == text_or(d.target, "preview"@)
    &&& r.short_id@ == short_id_of(d.uid@)
}

fn take_or(o: Option<String>, d: &str) -> (r: String)
    ensures
        r@ == text_or(o, d@),
{
    match o {
        Some(s) => s,
        None => String::from_str(d),
    }
}

impl Deployment {
    /// Decodes a remote record, `now_ms` being the time at which its age is
    /// told.
    pub fn from_vercel(d: VercelDeployment, now_ms: u64) -> (r: Deployment)
        ensures
            decoded(d, now_ms, r),
    {
        let ghost d0 = d;
        let status = map_status(d.state.as_str());
        let time = time_ago(now_ms, d.created);
        let duration_ms = match d.ready {
            Some(t) => t.saturating_sub(d.created),
            None => 0,
        };
        let short = short_id(d.uid.as_str());
        let name = d.name;
        let (commit_msg, repo, branch) = match d.meta {
            Some(m) => (
                take_or(m.github_commit_message, "No commit info"),
                take_or(m.github_repo, name.as_str()),
                take_or(m.github_commit_ref, "main"),
            ),
            None => (
                String::from_str("No commit info"),
                name.clone(),
                String::from_str("main"),
            ),
        };
        Deployment {
            id: d.uid,
            name,
            repo,
            status,
            commit_msg,
            time,
            timestamp: d.created,
            duration_ms,
            domain: d.url,
            branch,
            creator: d.creator.username,
            target: take_or(d.target, "preview"),
            short_id: short,
        }
    }
}

/// Decodes a listing of remote records in order.
pub fn decode_deployments(list: Vec<VercelDeployment>, now_ms: u64) -> (r: Vec<Deployment>)
    ensures
        r@.len() == list@.len(),
        forall|i: int| 0 <= i < list@.len() ==> decoded(#[trigger] list@[i], now_ms, r@[i]),
{
    let mut out: Vec<Deployment> = Vec::new();
    let mut rest = list;
    let ghost all = rest@;
    while rest.len() > 0
        invariant
            out@.len() + rest@.len() == all.len(),
            rest@ == all.skip(out@.len() as int),
            forall|i: int| 0 <= i < out@.len() ==> decoded(#[trigger] all[i], now_ms, out@[i]),
        decreases rest@.len(),
    {
        let d = rest.remove(0);
        out.push(Deployment::from_vercel(d, now_ms));
        assert(rest@ =~= all.skip(out@.len() as int));
    }
    out
}

} // verus!
