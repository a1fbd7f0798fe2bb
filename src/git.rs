//! The webhook endpoint for git repositories: the ordered checks that an
//! inbound request passes before its policy's action runs.

pub mod config;
pub mod github;
pub mod sync;

use crate::git::config::{find_policy, Config, Policy, Service};
use crate::git::github::{
    event_of, signature_text, Event, Github, Payload, Signature, AGENT_PREFIX,
};
use crate::hmac::hmac_sha256_spec;
use vstd::prelude::*;
use vstd::utf8::{decode_utf8, encode_utf8, valid_utf8};

verus! {

/// The most bytes of a request body that are read.
pub const MAX_BODY: usize = 10240;

/// The size of each read of a request body.
pub const CHUNK_SIZE: usize = 512;

/// `s` cut to at most `MAX_BODY` bytes.
pub open spec fn truncated(s: Seq<u8>) -> Seq<u8> {
    if s.len() > MAX_BODY {
        s.take(MAX_BODY as int)
    } else {
        s
    }
}

/// Takes one chunk read from the body into `body`, keeping at most
/// `MAX_BODY` bytes in all. An empty chunk marks the end of the body. Returns
/// whether another chunk should be read.
pub fn body_accept(body: &mut Vec<u8>, chunk: &[u8]) -> (more: bool)
    requires
        old(body)@.len() <= MAX_BODY,
    ensures
        final(body)@ == truncated(old(body)@ + chunk@),
        more == (chunk@.len() > 0 && final(body)@.len() < MAX_BODY),
{
    let room = MAX_BODY - body.len();
    let take = if chunk.len() < room { chunk.len() } else { room };
    let mut i: usize = 0;
    while i < take
        invariant
            take <= chunk@.len(),
            take <= room,
            room == MAX_BODY - old(body)@.len(),
            i <= take,
            body@ == old(body)@ + chunk@.take(i as int),
        decreases take - i,
    {
        body.push(chunk[i]);
        i = i + 1;
        proof {
            assert(chunk@.take(i as int) =~= chunk@.take(i - 1) .push(chunk@[i - 1]));
        }
    }
    proof {
        assert(body@ =~= truncated(old(body)@ + chunk@));
    }
    chunk.len() > 0 && body.len() < MAX_BODY
}

/// Cutting the body at `MAX_BODY` bytes as it arrives gives the same bytes as
/// cutting the whole of it at once, however it was split into chunks.
pub proof fn lemma_truncation_composes(a: Seq<u8>, b: Seq<u8>)
    ensures
        truncated(truncated(a) + b) == truncated(a + b),
{
    assert(truncated(truncated(a) + b) =~= truncated(a + b));
}

/// Relies on String::from_utf8: succeeds exactly on valid UTF-8 and then holds
/// the characters that the bytes encode.
#[verifier::external_body]
fn string_from_utf8(bytes: Vec<u8>) -> (r: Option<String>)
    ensures
        r is Some <==> valid_utf8(bytes@),
        r matches Some(s) ==> s@ == decode_utf8(bytes@),
{
    String::from_utf8(bytes).ok()
}

/// The body as text, when it is valid UTF-8.
pub fn decode_body(body: &Vec<u8>) -> (r: Option<String>)
    ensures
        r is Some <==> valid_utf8(body@),
        r matches Some(s) ==> s@ == decode_utf8(body@),
{
    string_from_utf8(body.clone())
}

/// What the endpoint is handed for one delivery.
#[derive(Debug)]
pub struct IncomingRequest {
    /// The route's repository name.
    pub repo_name: String,
    pub user_agent: Option<String>,
    pub event: Option<String>,
    pub signature: Option<String>,
    /// The body bytes that were read, at most `MAX_BODY` of them.
    pub body: Vec<u8>,
    /// Reading the body failed.
    pub body_read_failed: bool,
}

/// The verdict on a request.
#[derive(Debug, PartialEq, Eq, Structural)]
pub enum Outcome {
    /// The body could not be read, was not UTF-8 or was not a payload.
    BadRequest,
    /// Any failed check of origin, headers, policy, name, signature or event.
    NotFound,
    /// Run the action of the policy at this position.
    Dispatch(usize),
}

/// The response status.
#[derive(Debug, PartialEq, Eq, Structural)]
pub enum Status {
    Success,
    BadRequest,
    NotFound,
    InternalServerError,
}

impl Status {
    /// The HTTP status code.
    pub fn code(&self) -> (r: u16)
        ensures
            r == match self {
                Status::Success => 200u16,
                Status::BadRequest => 400u16,
                Status::NotFound => 404u16,
                Status::InternalServerError => 500u16,
            },
    {
        match self {
            Status::Success => 200,
            Status::BadRequest => 400,
            Status::NotFound => 404,
            Status::InternalServerError => 500,
        }
    }
}

/// The agent header is present and names GitHub's webhook sender.
pub open spec fn agent_ok(v: Option<String>) -> bool {
    match v {
        Some(a) => AGENT_PREFIX@.is_prefix_of(a@),
        None => false,
    }
}

/// The event header is present and names a known event.
pub open spec fn event_ok(v: Option<String>) -> bool {
    match v {
        Some(e) => event_of(e@) is Some,
        None => false,
    }
}

/// The event that a policy expects is the one that the request announces.
pub open spec fn event_matches(expected: config::Event, got: Option<String>) -> bool {
    match got {
        Some(e) => match (expected, event_of(e@)) {
            (config::Event::Push, Some(Event::Push)) => true,
            _ => false,
        },
        None => false,
    }
}

/// The signature header authenticates `body` under `secret`.
pub open spec fn signature_ok(sig: Option<String>, secret: Seq<char>, body: Seq<u8>) -> bool {
    match sig {
        Some(s) => s@ == signature_text(hmac_sha256_spec(encode_utf8(secret), body)),
        None => false,
    }
}

/// The body was read whole and is valid UTF-8.
pub open spec fn body_ok(req: IncomingRequest) -> bool {
    !req.body_read_failed && valid_utf8(req.body@)
}

/// The payload's repository is the route's.
pub open spec fn payload_names(payload: Option<Payload>, name: Seq<char>) -> bool {
    match payload {
        Some(p) => p.repository.name@ == name,
        None => false,
    }
}

/// The verdict on `req`, whose body parsed to `payload` (`None`: it did not),
/// against the policies `ps`. The checks come in this order: agent, event
/// header, signature header, body, payload, policy, service, repository name,
/// signature, event.
pub open spec fn request_outcome(
    ps: Seq<Policy>,
    req: IncomingRequest,
    payload: Option<Payload>,
) -> Outcome {
    if !agent_ok(req.user_agent) || !event_ok(req.event) || req.signature is None {
        Outcome::NotFound
    } else if !body_ok(req) || payload is None {
        Outcome::BadRequest
    } else {
        match find_policy(ps, req.repo_name@) {
            None => Outcome::NotFound,
            Some(i) => {
                let p = ps[i];
                if p.service != Service::Github {
                    Outcome::NotFound
                } else if !payload_names(payload, req.repo_name@) {
                    Outcome::NotFound
                } else if !signature_ok(req.signature, p.secret@, req.body@) {
                    Outcome::NotFound
                } else if !event_matches(p.event, req.event) {
                    Outcome::NotFound
                } else {
                    Outcome::Dispatch(i as usize)
                }
            },
        }
    }
}

/// The response status for an outcome; `sync_ok` tells whether the action
/// that a dispatch ran succeeded.
pub open spec fn status_of(outcome: Outcome, sync_ok: bool) -> Status {
    match outcome {
        Outcome::BadRequest => Status::BadRequest,
        Outcome::NotFound => Status::NotFound,
        Outcome::Dispatch(_) => if sync_ok {
            Status::Success
        } else {
            Status::InternalServerError
        },
    }
}

fn option_str(v: &Option<String>) -> (r: Option<&str>)
    ensures
        match v {
            Some(s) => r matches Some(t) && t@ == s@,
            None => r is None,
        },
{
    match v {
        Some(s) => Some(s.as_str()),
        None => None,
    }
}

/// Runs the ordered checks on a request whose body parsed to `payload`.
pub fn authenticate(config: &Config, req: &IncomingRequest, payload: &Option<Payload>) -> (r:
    Outcome)
    requires
        config.wf(),
    ensures
        r == request_outcome(config.policies@, *req, *payload),
{
    match Github::from_user_agent(option_str(&req.user_agent)) {
        Ok(_) => {},
        Err(_) => return Outcome::NotFound,
    }
    let event = match Event::from_header(option_str(&req.event)) {
        Ok(e) => e,
        Err(_) => return Outcome::NotFound,
    };
    let signature = match Signature::from_header(option_str(&req.signature)) {
        Ok(s) => s,
        Err(_) => return Outcome::NotFound,
    };
    if req.body_read_failed {
        return Outcome::BadRequest;
    }
    match decode_body(&req.body) {
        Some(_) => {},
        None => return Outcome::BadRequest,
    }
    let payload = match payload {
        Some(p) => p,
        None => return Outcome::BadRequest,
    };
    let i = match config.policy_index(req.repo_name.as_str()) {
        Some(i) => i,
        None => return Outcome::NotFound,
    };
    let policy = &config.policies[i];
    match policy.service {
        Service::Github => {},
    }
    if !(req.repo_name == payload.repository.name) {
        return Outcome::NotFound;
    }
    let secret = policy.secret.as_str().as_bytes_vec();
    if !signature.verify(secret, req.body.clone()) {
        return Outcome::NotFound;
    }
    match (&policy.event, event) {
        (config::Event::Push, Event::Push) => Outcome::Dispatch(i),
        _ => Outcome::NotFound,
    }
}

/// The response status for an outcome, given whether the dispatched action
/// succeeded.
pub fn response_status(outcome: &Outcome, sync_ok: bool) -> (r: Status)
    ensures
        r == status_of(*outcome, sync_ok),
{
    match outcome {
        Outcome::BadRequest => Status::BadRequest,
        Outcome::NotFound => Status::NotFound,
        Outcome::Dispatch(_) => if sync_ok {
            Status::Success
        } else {
            Status::InternalServerError
        },
    }
}

/// A request with GitHub's agent, a known event, a body that reads whole as
/// UTF-8 and parses to a payload naming the route's repository, and a
/// signature over that body under the policy's secret, for a policy that
/// expects that event, is dispatched to that policy's action; it is answered
/// 200 when the action succeeds.
pub proof fn lemma_authentic_request_dispatched(
    ps: Seq<Policy>,
    req: IncomingRequest,
    payload: Option<Payload>,
    i: int,
)
    requires
        config::names_unique(ps),
        0 <= i < ps.len(),
        ps[i].repo_name@ == req.repo_name@,
        agent_ok(req.user_agent),
        body_ok(req),
        payload_names(payload, req.repo_name@),
        signature_ok(req.signature, ps[i].secret@, req.body@),
        event_matches(ps[i].event, req.event),
    ensures
        request_outcome(ps, req, payload) == Outcome::Dispatch(i as usize),
        status_of(request_outcome(ps, req, payload), true) == Status::Success,
{
    config::lemma_find_unique(ps, req.repo_name@, i);
}

/// A request without a signature header is refused as not found, whatever
/// else it holds.
pub proof fn lemma_missing_signature_not_found(
    ps: Seq<Policy>,
    req: IncomingRequest,
    payload: Option<Payload>,
)
    requires
        req.signature is None,
    ensures
        request_outcome(ps, req, payload) == Outcome::NotFound,
        status_of(request_outcome(ps, req, payload), true) == Status::NotFound,
{
}

/// A request whose body does not parse is refused as bad before any policy is
/// looked up: an unknown route gives 400 and not 404.
pub proof fn lemma_malformed_body_before_policy(
    ps: Seq<Policy>,
    req: IncomingRequest,
)
    requires
        agent_ok(req.user_agent),
        event_ok(req.event),
        req.signature is Some,
    ensures
        request_outcome(ps, req, None) == Outcome::BadRequest,
        status_of(request_outcome(ps, req, None), true) == Status::BadRequest,
{
}

/// A well-formed request whose payload names another repository than the
/// route is refused as not found, whatever its signature.
pub proof fn lemma_name_mismatch_not_found(
    ps: Seq<Policy>,
    req: IncomingRequest,
    payload: Option<Payload>,
)
    requires
        payload matches Some(p) && p.repository.name@ != req.repo_name@,
        body_ok(req),
    ensures
        request_outcome(ps, req, payload) == Outcome::NotFound,
{
}

/// A well-formed request whose signature header is not the HMAC of its body
/// under the secret of the policy it names is refused as not found, whatever
/// else it holds. In particular, a body changed after signing fails whenever
/// the change alters its HMAC.
pub proof fn lemma_bad_signature_not_found(
    ps: Seq<Policy>,
    req: IncomingRequest,
    payload: Option<Payload>,
)
    requires
        payload is Some,
        body_ok(req),
        forall|i: int|
            find_policy(ps, req.repo_name@) == Some(i) ==> !signature_ok(
                req.signature,
                ps[i].secret@,
                req.body@,
            ),
    ensures
        request_outcome(ps, req, payload) == Outcome::NotFound,
{
}

} // verus!
