//! What a GitHub webhook delivery carries: the sender's agent, the event
//! header, the signature header and the JSON payload.

use crate::hmac::{hmac_sha256, hmac_sha256_spec};
use crate::text::{constant_time_eq, starts_with, str_eq};
use vstd::prelude::*;

verus! {

/// Name of the header that carries the payload signature.
pub const SIGNATURE_HEADER: &'static str = "X-Hub-Signature-256";

/// Name of the header that carries the event type.
pub const EVENT_HEADER: &'static str = "X-GitHub-Event";

/// Name of the header that identifies the sending agent.
pub const AGENT_HEADER: &'static str = "User-Agent";

/// Agent prefix of GitHub's webhook sender.
pub const AGENT_PREFIX: &'static str = "GitHub-Hookshot/";

/// Why the signature header was refused.
#[derive(Debug, PartialEq, Eq, Structural)]
pub enum SignatureError {
    Missing,
}

/// Contains the `X-Hub-Signature-256` request header value.
#[derive(Debug)]
pub struct Signature(pub String);

/// The lowercase hexadecimal digits.
pub open spec fn hex_digits() -> Seq<char> {
    seq!['0', '1', '2', '3', '4', '5', '6', '7', '8', '9', 'a', 'b', 'c', 'd', 'e', 'f']
}

/// Lowercase hexadecimal text of `b`: two digits per byte, high nibble first.
pub open spec fn hex_of(b: Seq<u8>) -> Seq<char> {
    Seq::new(
        2 * b.len(),
        |i: int|
            if i % 2 == 0 {
                hex_digits()[(b[i / 2] / 16) as int]
            } else {
                hex_digits()[(b[i / 2] % 16) as int]
            },
    )
}

/// The signature header value that authenticates a body whose digest is `digest`.
pub open spec fn signature_text(digest: Seq<u8>) -> Seq<char> {
    "sha256="@ + hex_of(digest)
}

/// Relies on hex::encode: lowercase hexadecimal, two digits per byte.
#[verifier::external_body]
fn hex_encode(b: &Vec<u8>) -> (r: String)
    ensures
        r@ == hex_of(b@),
{
    hex::encode(b)
}

impl Signature {
    /// Takes the signature header value, if the request has one.
    pub fn from_header(value: Option<&str>) -> (r: Result<Signature, SignatureError>)
        ensures
            match value {
                Some(v) => r matches Ok(s) && s.0@ == v@,
                None => r == Err::<Signature, SignatureError>(SignatureError::Missing),
            },
    {
        match value {
            Some(v) => Ok(Signature(String::from_str(v))),
            None => Err(SignatureError::Missing),
        }
    }

    /// Whether this signature is `"sha256="` followed by the hex of `digest`.
    pub fn eq_digest(&self, digest: &Vec<u8>) -> (r: bool)
        ensures
            r == (self.0@ == signature_text(digest@)),
    {
        let mut cmp = String::from_str("sha256=");
        let h = hex_encode(digest);
        cmp.append(h.as_str());
        constant_time_eq(self.0.as_str(), cmp.as_str())
    }

    /// Whether this signature authenticates `message` under `key`: it must be
    /// `"sha256="` followed by the hex of the message's HMAC-SHA256.
    pub fn verify(&self, key: Vec<u8>, message: Vec<u8>) -> (r: bool)
        ensures
            r == (self.0@ == signature_text(hmac_sha256_spec(key@, message@))),
    {
        let digest = hmac_sha256(key, message);
        self.eq_digest(&digest)
    }
}

/// Enum representing the `X-GitHub-Event` header value.
#[derive(Debug, PartialEq, Eq, Structural)]
pub enum Event {
    Push,
    Issue,
}

/// Why the event header was refused.
#[derive(Debug, PartialEq, Eq, Structural)]
pub enum EventError {
    Missing,
    Invalid,
}

/// The event that an event header value names, if it names a known one.
pub open spec fn event_of(value: Seq<char>) -> Option<Event> {
    if value == "push"@ {
        Some(Event::Push)
    } else {
        None
    }
}

impl Event {
    /// Reads the event header value: `"push"` is the one event accepted.
    pub fn from_header(value: Option<&str>) -> (r: Result<Event, EventError>)
        ensures
            match value {
                Some(v) => match event_of(v@) {
                    Some(e) => r == Ok::<Event, EventError>(e),
                    None => r == Err::<Event, EventError>(EventError::Invalid),
                },
                None => r == Err::<Event, EventError>(EventError::Missing),
            },
    {
        match value {
            Some(v) => {
                if str_eq(v, "push") {
                    Ok(Event::Push)
                } else {
                    Err(EventError::Invalid)
                }
            },
            None => Err(EventError::Missing),
        }
    }
}

/// Struct representing the Github User-Agent.
#[derive(Debug, PartialEq, Eq, Structural)]
pub struct Github;

/// Why the agent header was refused.
#[derive(Debug, PartialEq, Eq, Structural)]
pub enum ServiceError {
    Missing,
    Invalid,
}

impl Github {
    /// Accepts an agent header value that starts with `"GitHub-Hookshot/"`.
    pub fn from_user_agent(value: Option<&str>) -> (r: Result<Github, ServiceError>)
        ensures
            match value {
                Some(v) => if AGENT_PREFIX@.is_prefix_of(v@) {
                    r == Ok::<Github, ServiceError>(Github)
                } else {
                    r == Err::<Github, ServiceError>(ServiceError::Invalid)
                },
                None => r == Err::<Github, ServiceError>(ServiceError::Missing),
            },
    {
        match value {
            Some(v) => {
                if starts_with(v, AGENT_PREFIX) {
                    Ok(Github)
                } else {
                    Err(ServiceError::Invalid)
                }
            },
            None => Err(ServiceError::Missing),
        }
    }
}

/// The part of a push delivery's JSON body that is checked against the route
/// and the policy.
#[derive(Debug)]
pub struct Payload {
    pub repository: PayloadRepository,
}

#[derive(Debug)]
pub struct PayloadRepository {
    pub name: String,
    pub full_name: String,
    pub private: bool,
    pub owner: PayloadRepositoryOwner,
    pub html_url: String,
    pub ssh_url: String,
}

#[derive(Debug)]
pub struct PayloadRepositoryOwner {
    pub login: String,
    pub id: u32,
}

} // verus!
