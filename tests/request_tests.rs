use hook::git::config::{Action, Config, Event, Service, UserConfig, UserPolicy};
use hook::git::github::{
    Event as HookEvent, EventError, Github, Payload, PayloadRepository, PayloadRepositoryOwner,
    ServiceError, Signature, SignatureError,
};
use hook::git::{
    authenticate, body_accept, decode_body, response_status, IncomingRequest, Outcome, Status,
    CHUNK_SIZE, MAX_BODY,
};
use hook::hmac::hmac_sha256;

const BODY: &str = "{\"repository\":{\"name\":\"repo\",\"full_name\":\"acme/repo\",\"private\":false,\"owner\":{\"login\":\"acme\",\"id\":1},\"html_url\":\"h\",\"ssh_url\":\"s\"}}";
const SECRET: &str = "topsecret";

fn store() -> Config {
    Config::from_user_config(UserConfig {
        policies: vec![UserPolicy {
            service: Service::Github,
            full_repo_name: "acme/repo".to_string(),
            secret: SECRET.to_string(),
            event: Event::Push,
            action: Action::Pull {
                path: "/srv/repo".to_string(),
                remote: "origin".to_string(),
                branch: "main".to_string(),
                ssh_key_path: "/keys/id".to_string(),
            },
        }],
    })
    .unwrap()
}

fn payload(name: &str) -> Option<Payload> {
    Some(Payload {
        repository: PayloadRepository {
            name: name.to_string(),
            full_name: format!("acme/{}", name),
            private: false,
            owner: PayloadRepositoryOwner { login: "acme".to_string(), id: 1 },
            html_url: "h".to_string(),
            ssh_url: "s".to_string(),
        },
    })
}

fn sign(secret: &str, body: &[u8]) -> String {
    format!("sha256={}", hex::encode(hmac_sha256(secret.as_bytes().to_vec(), body.to_vec())))
}

fn request(repo: &str, body: &[u8], signature: Option<String>) -> IncomingRequest {
    IncomingRequest {
        repo_name: repo.to_string(),
        user_agent: Some("GitHub-Hookshot/x".to_string()),
        event: Some("push".to_string()),
        signature,
        body: body.to_vec(),
        body_read_failed: false,
    }
}

#[test]
fn example_delivery_is_dispatched_with_200() {
    let req = request("repo", BODY.as_bytes(), Some(sign(SECRET, BODY.as_bytes())));
    let outcome = authenticate(&store(), &req, &payload("repo"));
    assert_eq!(outcome, Outcome::Dispatch(0));
    assert_eq!(response_status(&outcome, true).code(), 200);
    assert_eq!(response_status(&outcome, false).code(), 500);
}

#[test]
fn example_signature_matches_known_digest() {
    assert_eq!(
        sign(SECRET, BODY.as_bytes()),
        "sha256=5a66686345d89c70b51a26c5171c911b731d6ec71670c1d5847ea4e34b194edf"
    );
}

#[test]
fn missing_signature_gives_404() {
    let req = request("repo", BODY.as_bytes(), None);
    let outcome = authenticate(&store(), &req, &payload("repo"));
    assert_eq!(outcome, Outcome::NotFound);
    assert_eq!(response_status(&outcome, true).code(), 404);
}

#[test]
fn malformed_body_on_unknown_route_gives_400() {
    let body = b"this is not json";
    let req = request("unknown", body, Some(sign(SECRET, body)));
    let outcome = authenticate(&store(), &req, &None);
    assert_eq!(outcome, Outcome::BadRequest);
    assert_eq!(response_status(&outcome, true).code(), 400);
}

#[test]
fn single_bit_flip_in_body_gives_404() {
    let signature = sign(SECRET, BODY.as_bytes());
    for at in [0usize, 17, BODY.len() - 1] {
        let mut body = BODY.as_bytes().to_vec();
        body[at] ^= 0x01;
        let req = request("repo", &body, Some(signature.clone()));
        let outcome = authenticate(&store(), &req, &payload("repo"));
        assert_eq!(response_status(&outcome, true).code(), 404);
    }
}

#[test]
fn payload_name_differing_from_route_gives_404() {
    let other = BODY.replace("\"name\":\"repo\"", "\"name\":\"other\"");
    let req = request("repo", other.as_bytes(), Some(sign(SECRET, other.as_bytes())));
    let outcome = authenticate(&store(), &req, &payload("other"));
    assert_eq!(outcome, Outcome::NotFound);
}

#[test]
fn wrong_agent_or_event_gives_404() {
    let mut req = request("repo", BODY.as_bytes(), Some(sign(SECRET, BODY.as_bytes())));
    req.user_agent = Some("curl/8".to_string());
    assert_eq!(authenticate(&store(), &req, &payload("repo")), Outcome::NotFound);
    req.user_agent = Some("GitHub-Hookshot/1".to_string());
    req.event = Some("issues".to_string());
    assert_eq!(authenticate(&store(), &req, &payload("repo")), Outcome::NotFound);
    req.event = None;
    assert_eq!(authenticate(&store(), &req, &payload("repo")), Outcome::NotFound);
}

#[test]
fn unreadable_or_non_utf8_body_gives_400() {
    let mut req = request("repo", BODY.as_bytes(), Some(sign(SECRET, BODY.as_bytes())));
    req.body_read_failed = true;
    assert_eq!(authenticate(&store(), &req, &payload("repo")), Outcome::BadRequest);
    let bad = vec![0xff, 0xfe];
    let req = request("repo", &bad, Some(sign(SECRET, &bad)));
    assert_eq!(authenticate(&store(), &req, &payload("repo")), Outcome::BadRequest);
}

#[test]
fn wrong_secret_gives_404() {
    let req = request("repo", BODY.as_bytes(), Some(sign("guess", BODY.as_bytes())));
    assert_eq!(authenticate(&store(), &req, &payload("repo")), Outcome::NotFound);
}

#[test]
fn oversized_body_is_truncated_at_the_bound() {
    let mut body = Vec::new();
    let chunk = vec![b'a'; CHUNK_SIZE];
    let mut reads = 0;
    while body_accept(&mut body, &chunk) {
        reads += 1;
        assert!(reads <= MAX_BODY / CHUNK_SIZE);
    }
    assert_eq!(body.len(), MAX_BODY);
    assert_eq!(MAX_BODY, 10240);
}

#[test]
fn body_chunk_is_cut_to_fit() {
    let mut body = vec![1u8; MAX_BODY - 3];
    let more = body_accept(&mut body, &[2, 3, 4, 5, 6]);
    assert!(!more);
    assert_eq!(body.len(), MAX_BODY);
    assert_eq!(&body[MAX_BODY - 4..], &[1, 2, 3, 4]);
}

#[test]
fn empty_chunk_ends_the_body() {
    let mut body = vec![7u8; 3];
    assert!(!body_accept(&mut body, &[]));
    assert_eq!(body, vec![7u8; 3]);
    assert!(body_accept(&mut body, &[8]));
    assert_eq!(body, vec![7, 7, 7, 8]);
}

#[test]
fn decode_body_checks_utf8() {
    assert_eq!(decode_body(&"héllo".as_bytes().to_vec()), Some("héllo".to_string()));
    assert_eq!(decode_body(&vec![0xc3]), None);
}

#[test]
fn signature_compares_against_hex_digest() {
    let sig = Signature::from_header(Some("sha256=00ff10")).unwrap();
    assert!(sig.eq_digest(&vec![0x00, 0xff, 0x10]));
    assert!(!sig.eq_digest(&vec![0x00, 0xff, 0x11]));
    let upper = Signature::from_header(Some("sha256=00FF10")).unwrap();
    assert!(!upper.eq_digest(&vec![0x00, 0xff, 0x10]));
    assert!(matches!(Signature::from_header(None), Err(SignatureError::Missing)));
}

#[test]
fn event_header_values() {
    assert_eq!(HookEvent::from_header(Some("push")), Ok(HookEvent::Push));
    assert_eq!(HookEvent::from_header(Some("Push")), Err(EventError::Invalid));
    assert_eq!(HookEvent::from_header(None), Err(EventError::Missing));
}

#[test]
fn agent_header_values() {
    assert_eq!(Github::from_user_agent(Some("GitHub-Hookshot/044aadd")), Ok(Github));
    assert_eq!(Github::from_user_agent(Some("GitHub-Hookshot")), Err(ServiceError::Invalid));
    assert_eq!(Github::from_user_agent(None), Err(ServiceError::Missing));
}

#[test]
fn status_codes() {
    assert_eq!(Status::Success.code(), 200);
    assert_eq!(Status::BadRequest.code(), 400);
    assert_eq!(Status::NotFound.code(), 404);
    assert_eq!(Status::InternalServerError.code(), 500);
}

#[test]
fn signature_verify_recomputes_hmac() {
    let header = sign(SECRET, BODY.as_bytes());
    let sig = Signature::from_header(Some(header.as_str())).unwrap();
    assert!(sig.verify(SECRET.as_bytes().to_vec(), BODY.as_bytes().to_vec()));
    assert!(!sig.verify(b"other".to_vec(), BODY.as_bytes().to_vec()));
    assert!(!sig.verify(SECRET.as_bytes().to_vec(), b"{}".to_vec()));
}
