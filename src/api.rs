//! The remote API's side of the actor: endpoint addresses, the error
//! taxonomy, and how each operation's outcome becomes an event.

use vstd::prelude::*;
use vstd::string::StringExecFns;
use crate::model::{Deployment, Project};
use crate::network::NetworkEvent;
use crate::text::{decimal, push_decimal};

verus! {

/// Why a remote operation failed.
#[derive(Debug)]
pub enum ApiError {
    /// The request did not get through (connection, name resolution, body read).
    Transport(String),
    /// The platform answered with a status other than success.
    HttpStatus(u16),
    /// The answer could not be decoded.
    Parse(String),
    /// The answer lacked a field that the operation needs.
    Domain(String),
}

/// What an error says about itself.
pub open spec fn describe(e: ApiError) -> Seq<char> {
    match e {
        ApiError::Transport(m) => m@,
        ApiError::HttpStatus(c) => decimal(c as nat),
        ApiError::Parse(m) => m@,
        ApiError::Domain(m) => m@,
    }
}

impl ApiError {
    /// What this error says about itself.
    pub fn message(&self) -> (r: String)
        ensures
            r@ == describe(*self),
    {
        match self {
            ApiError::Transport(m) => m.clone(),
            ApiError::HttpStatus(c) => {
                let mut s = String::new();
                push_decimal(&mut s, *c as u64);
                assert(s@ =~= decimal(*c as nat));
                s
            },
            ApiError::Parse(m) => m.clone(),
            ApiError::Domain(m) => m.clone(),
        }
    }
}

/// `prefix` followed by `body`.
pub fn join(prefix: &str, body: &str) -> (r: String)
    ensures
        r@ == prefix@ + body@,
{
    let mut s = String::from_str(prefix);
    s.append(body);
    s
}

/// An error event whose message is `prefix` followed by what `e` says.
fn error_with(prefix: &str, e: &ApiError) -> (r: NetworkEvent)
    ensures
        r matches NetworkEvent::Error(m) && m@ == prefix@ + describe(*e),
{
    let m = e.message();
    NetworkEvent::Error(join(prefix, m.as_str()))
}

/// Whether `r` is an error event with the message `m`.
pub open spec fn is_error(r: NetworkEvent, m: Seq<char>) -> bool {
    r matches NetworkEvent::Error(x) && x@ == m
}

/// Whether `r` is an info event with the message `m`.
pub open spec fn is_info(r: NetworkEvent, m: Seq<char>) -> bool {
    r matches NetworkEvent::Info(x) && x@ == m
}

/// The event that a deployment listing's outcome gives.
pub fn deployments_event(outcome: Result<Vec<Deployment>, ApiError>) -> (r: NetworkEvent)
    ensures
        match outcome {
            Ok(list) => r == NetworkEvent::Deployments(list),
            Err(e) => is_error(r, "Deployment Fetch Error: "@ + describe(e)),
        },
{
    match outcome {
        Ok(list) => NetworkEvent::Deployments(list),
        Err(e) => error_with("Deployment Fetch Error: ", &e),
    }
}

/// The event that a project listing's outcome gives: a failed request says
/// why, any other failure says that the answer could not be read.
pub fn projects_event(outcome: Result<Vec<Project>, ApiError>) -> (r: NetworkEvent)
    ensures
        match outcome {
            Ok(list) => r == NetworkEvent::Projects(list),
            Err(ApiError::Transport(m)) => is_error(r, "Project Fetch Error: "@ + m@),
            Err(_) => is_error(r, "Failed to parse projects response"@),
        },
{
    match outcome {
        Ok(list) => NetworkEvent::Projects(list),
        Err(ApiError::Transport(m)) => NetworkEvent::Error(join("Project Fetch Error: ", m.as_str())),
        Err(_) => NetworkEvent::Error(String::from_str("Failed to parse projects response")),
    }
}

/// The event that a failed log fetch for `deployment_id` gives.
pub fn logs_failure_event(deployment_id: &str, e: ApiError) -> (r: NetworkEvent)
    ensures
        match e {
            ApiError::Transport(m) => is_error(r, "Log Fetch Http Error: "@ + m@),
            _ => is_error(r, "Failed to parse logs for "@ + deployment_id@),
        },
{
    match e {
        ApiError::Transport(m) => NetworkEvent::Error(join("Log Fetch Http Error: ", m.as_str())),
        _ => NetworkEvent::Error(join("Failed to parse logs for ", deployment_id)),
    }
}

/// The event that a cancellation's outcome gives.
pub fn cancel_event(outcome: Result<(), ApiError>) -> (r: NetworkEvent)
    ensures
        match outcome {
            Ok(()) => is_info(r, "Build Cancelled Successfully"@),
            Err(ApiError::Transport(m)) => is_error(r, "Cancel Http Error: "@ + m@),
            Err(e) => is_error(r, "Cancel Failed: "@ + describe(e)),
        },
{
    match outcome {
        Ok(()) => NetworkEvent::Info(String::from_str("Build Cancelled Successfully")),
        Err(ApiError::Transport(m)) => NetworkEvent::Error(join("Cancel Http Error: ", m.as_str())),
        Err(e) => error_with("Cancel Failed: ", &e),
    }
}

/// The message of a failed lookup of the deployment to redeploy.
pub open spec fn lookup_failure(e: ApiError) -> Seq<char> {
    match e {
        ApiError::Transport(m) => "Redeploy (Get Info) Http Error: "@ + m@,
        ApiError::HttpStatus(c) => "Redeploy (Get Info) Failed: "@ + decimal(c as nat),
        ApiError::Parse(m) => "Redeploy (Parse Info) Failed: "@ + m@,
        ApiError::Domain(m) => "Redeploy Failed: "@ + m@,
    }
}

/// The first step of a redeploy: from the lookup of the source deployment
/// (its project name, where the answer gave one) to the name under which to
/// submit the new deployment, or to the error event that ends the attempt.
pub fn redeploy_source(lookup: Result<Option<String>, ApiError>) -> (r: Result<String, NetworkEvent>)
    ensures
        match lookup {
            Ok(Some(name)) => r == Ok::<String, NetworkEvent>(name),
            Ok(None) => r matches Err(ev) && is_error(ev, "Redeploy Failed: Could not find project name"@),
            Err(e) => r matches Err(ev) && is_error(ev, lookup_failure(e)),
        },
{
    match lookup {
        Ok(Some(name)) => Ok(name),
        Ok(None) => Err(NetworkEvent::Error(String::from_str("Redeploy Failed: Could not find project name"))),
        Err(ApiError::Transport(m)) => Err(NetworkEvent::Error(join("Redeploy (Get Info) Http Error: ", m.as_str()))),
        Err(ApiError::HttpStatus(c)) => Err(error_with("Redeploy (Get Info) Failed: ", &ApiError::HttpStatus(c))),
        Err(ApiError::Parse(m)) => Err(NetworkEvent::Error(join("Redeploy (Parse Info) Failed: ", m.as_str()))),
        Err(ApiError::Domain(m)) => Err(NetworkEvent::Error(join("Redeploy Failed: ", m.as_str()))),
    }
}

/// The event that the submission of a redeploy gives.
pub fn redeploy_event(outcome: Result<(), ApiError>) -> (r: NetworkEvent)
    ensures
        match outcome {
            Ok(()) => is_info(r, "Redeploy Triggered Successfully"@),
            Err(ApiError::Transport(m)) => is_error(r, "Redeploy (Trigger) Http Error: "@ + m@),
            Err(e) => is_error(r, "Redeploy Failed: "@ + describe(e)),
        },
{
    match outcome {
        Ok(()) => NetworkEvent::Info(String::from_str("Redeploy Triggered Successfully")),
        Err(ApiError::Transport(m)) => NetworkEvent::Error(join("Redeploy (Trigger) Http Error: ", m.as_str())),
        Err(e) => error_with("Redeploy Failed: ", &e),
    }
}

/// Where deployments are listed, up to a hundred, of one project or of all.
pub open spec fn deployments_url_of(project_id: Option<Seq<char>>) -> Seq<char> {
    let base = "https://api.vercel.com/v6/deployments?limit=100"@;
    match project_id {
        Some(p) => base + "&projectId="@ + p,
        None => base,
    }
}

/// The address that lists the deployments of `project_id` (of all projects
/// where absent).
pub fn deployments_url(project_id: &Option<String>) -> (r: String)
    ensures
        r@ == deployments_url_of(crate::network::opt_view(*project_id)),
{
    let mut url = String::from_str("https://api.vercel.com/v6/deployments?limit=100");
    match project_id {
        Some(p) => {
            url.append("&projectId=");
            url.append(p.as_str());
        },
        None => {},
    }
    url
}

/// The address that lists the projects.
pub const PROJECTS_URL: &'static str = "https://api.vercel.com/v9/projects";

/// The address at which new deployments are submitted.
pub const DEPLOYMENTS_URL: &'static str = "https://api.vercel.com/v13/deployments";

/// Where the log events of a deployment are read: the latest hundred,
/// newest first, or, after a timestamp, up to a hundred, oldest first.
pub open spec fn logs_url_of(id: Seq<char>, since: Option<u64>) -> Seq<char> {
    let base = "https://api.vercel.com/v2/deployments/"@ + id;
    match since {
        Some(t) => base + "/events?direction=forward&limit=100&since="@ + decimal(t as nat),
        None => base + "/events?direction=backward&limit=100"@,
    }
}

/// The address of a deployment's log events, after `since` where given.
pub fn logs_url(id: &str, since: Option<u64>) -> (r: String)
    ensures
        r@ == logs_url_of(id@, since),
{
    let mut url = join("https://api.vercel.com/v2/deployments/", id);
    match since {
        Some(t) => {
            url.append("/events?direction=forward&limit=100&since=");
            push_decimal(&mut url, t);
        },
        None => {
            url.append("/events?direction=backward&limit=100");
        },
    }
    url
}

/// The address of one deployment.
pub fn deployment_url(id: &str) -> (r: String)
    ensures
        r@ == "https://api.vercel.com/v13/deployments/"@ + id@,
{
    join("https://api.vercel.com/v13/deployments/", id)
}

/// The address that cancels a deployment.
pub fn cancel_url(id: &str) -> (r: String)
    ensures
        r@ == "https://api.vercel.com/v13/deployments/"@ + id@ + "/cancel"@,
{
    let mut url = join("https://api.vercel.com/v13/deployments/", id);
    url.append("/cancel");
    url
}

/// The value of the authorization header for a bearer credential.
pub fn auth_header(token: &str) -> (r: String)
    ensures
        r@ == "Bearer "@ + token@,
{
    join("Bearer ", token)
}

/// A lower-case hexadecimal digit.
pub open spec fn hex_digit(n: nat) -> char {
    if n < 10 {
        ((48 + n) as u8) as char
    } else {
        ((87 + n) as u8) as char
    }
}

/// The code point of a character.
pub open spec fn char_code(c: char) -> nat {
    (c as u32) as nat
}

/// How a JSON string writes one character: quote, backslash and the named
/// controls by a backslash and a letter, the other controls below 0x20 as
/// `\u00xx`, every other character as itself.
pub open spec fn json_escape(c: char) -> Seq<char> {
    if c == '"' {
        seq!['\\', '"']
    } else if c == '\\' {
        seq!['\\', '\\']
    } else if c == '\u{8}' {
        seq!['\\', 'b']
    } else if c == '\t' {
        seq!['\\', 't']
    } else if c == '\n' {
        seq!['\\', 'n']
    } else if c == '\u{c}' {
        seq!['\\', 'f']
    } else if c == '\r' {
        seq!['\\', 'r']
    } else if char_code(c) < 32 {
        let n = char_code(c);
        seq!['\\', 'u', '0', '0', hex_digit(n / 16), hex_digit(n % 16)]
    } else {
        seq![c]
    }
}

/// The characters of `s`, each written as a JSON string writes it.
pub open spec fn json_body(s: Seq<char>) -> Seq<char>
    decreases s.len(),
{
    if s.len() == 0 {
        Seq::empty()
    } else {
        json_body(s.drop_last()) + json_escape(s.last())
    }
}

/// The JSON string literal of a text: its escaped characters in quotes.
pub open spec fn json_string(s: Seq<char>) -> Seq<char> {
    seq!['"'] + json_body(s) + seq!['"']
}

/// Relies on `serde_json::to_string` on a `str`: the quoted string, with the
/// escapes of `format_escaped_str`. Writing into memory cannot fail, so the
/// empty fallback is never taken.
#[verifier::external_body]
fn json_quote(s: &str) -> (r: String)
    ensures
        r@ == json_string(s@),
{
    match serde_json::to_string(s) {
        Ok(t) => t,
        Err(_) => String::new(),
    }
}

/// The body of a redeploy submission, from the two JSON literals.
pub open spec fn redeploy_body_of(name_json: Seq<char>, id_json: Seq<char>) -> Seq<char> {
    "{\"name\":"@ + name_json + ",\"deploymentId\":"@ + id_json + "}"@
}

/// The body that submits a new deployment of project `name` built from the
/// deployment `id`.
pub fn redeploy_body(name: &str, id: &str) -> (r: String)
    ensures
        r@ == redeploy_body_of(json_string(name@), json_string(id@)),
{
    let n = json_quote(name);
    let i = json_quote(id);
    let mut body = join("{\"name\":", n.as_str());
    body.append(",\"deploymentId\":");
    body.append(i.as_str());
    body.append("}");
    body
}

} // verus!
