//! The endpoint decisions, end to end over plain values.

use kcidb_restd::endpoint::{
    receive_submission, spool_failure_response, status_response, submission_status,
    submit_success_response, StatusDecision, SubmitDecision,
};
use kcidb_restd::spool::{final_path, temp_path, verify_submission_path};

#[test]
fn spool_paths_are_exact() {
    assert_eq!(
        temp_path("/spool", "abc123"),
        "/spool/submission-abc123.json.temp"
    );
    assert_eq!(final_path("/spool", "abc123"), "/spool/submission-abc123.json");
}

#[test]
fn accepted_submission_gets_id_and_both_paths() {
    // The scenario: auth disabled (empty secret), a small well-formed
    // document. The decision carries a 32-character alphanumeric id and
    // the two spool paths composed from it.
    let d = receive_submission(None, "", "/spool", "{\"a\":1}");
    match d {
        SubmitDecision::Accept {
            id,
            temp_path: t,
            final_path: f,
        } => {
            assert_eq!(id.len(), 32);
            assert!(id.chars().all(|c| c.is_ascii_alphanumeric()));
            assert_eq!(t, format!("/spool/submission-{}.json.temp", id));
            assert_eq!(f, format!("/spool/submission-{}.json", id));
        }
        SubmitDecision::Reject { .. } => panic!("expected acceptance"),
    }
}

#[test]
fn success_answer_matches_the_scenario() {
    let (status, body) = submit_success_response("x9WqX2B7kPqL0aZcVbNmT3rYsUdEfGh1", 7);
    assert_eq!(status, 200);
    assert_eq!(
        body,
        r#"{"id":"x9WqX2B7kPqL0aZcVbNmT3rYsUdEfGh1","status":"ok","message":"Received submission x9WqX2B7kPqL0aZcVbNmT3rYsUdEfGh1 with size 7 bytes"}"#
    );
}

#[test]
fn malformed_body_is_rejected_without_paths() {
    for body in ["", "{", "{\"a\":", "not json", "{\"a\":1} trailing"] {
        let d = receive_submission(None, "", "/spool", body);
        match d {
            SubmitDecision::Reject { status, body } => {
                assert_eq!(status, 400);
                let parsed: serde_json::Value = serde_json::from_str(&body).unwrap();
                assert_eq!(parsed.get("status").unwrap().as_str(), Some("error"));
                assert_eq!(parsed.get("id").unwrap().as_str(), Some("0"));
            }
            SubmitDecision::Accept { .. } => panic!("malformed body accepted"),
        }
    }
}

#[test]
fn unauthenticated_submission_is_rejected_without_paths() {
    let d = receive_submission(None, "s3cr3t", "/spool", "{\"a\":1}");
    match d {
        SubmitDecision::Reject { status, body } => {
            assert_eq!(status, 401);
            assert_eq!(
                body,
                r#"{"id":"0","status":"error","message":"JWT is required"}"#
            );
        }
        SubmitDecision::Accept { .. } => panic!("unauthenticated request accepted"),
    }
}

#[test]
fn badly_shaped_credential_is_rejected() {
    let d = receive_submission(Some("Token-without-space"), "s3cr3t", "/spool", "{}");
    match d {
        SubmitDecision::Reject { status, body } => {
            assert_eq!(status, 401);
            assert_eq!(
                body,
                r#"{"id":"0","status":"error","message":"Missing or invalid JWT (Bearer)"}"#
            );
        }
        SubmitDecision::Accept { .. } => panic!("malformed credential accepted"),
    }
}

#[test]
fn authenticated_submission_is_accepted() {
    let mut map = serde_json::Map::new();
    map.insert(
        "origin".to_string(),
        serde_json::Value::String("lab".to_string()),
    );
    map.insert(
        "gendate".to_string(),
        serde_json::Value::String("2025-01-01".to_string()),
    );
    map.insert(
        "exp".to_string(),
        serde_json::Value::Number(serde_json::Number::from(4102444800u64)),
    );
    let token = jsonwebtoken::encode(
        &jsonwebtoken::Header::default(),
        &serde_json::Value::Object(map),
        &jsonwebtoken::EncodingKey::from_secret(b"s3cr3t"),
    )
    .unwrap();
    let header = format!("Bearer {}", token);
    let d = receive_submission(Some(&header), "s3cr3t", "/spool", "{\"a\":1}");
    assert!(matches!(d, SubmitDecision::Accept { .. }));
    let d = receive_submission(Some(&header), "wrong-secret", "/spool", "{\"a\":1}");
    match d {
        SubmitDecision::Reject { status, .. } => assert_eq!(status, 401),
        SubmitDecision::Accept { .. } => panic!("invalid credential accepted"),
    }
}

#[test]
fn spool_failure_answer_is_a_500() {
    let (status, body) = spool_failure_response("abc");
    assert_eq!(status, 500);
    assert_eq!(
        body,
        r#"{"id":"abc","status":"error","message":"Failed to store submission"}"#
    );
}

#[test]
fn status_requires_authentication() {
    let d = submission_status(None, "s3cr3t", "/spool", "abc123");
    match d {
        StatusDecision::Reject { status, body } => {
            assert_eq!(status, 401);
            assert_eq!(
                body,
                r#"{"id":"0","status":"error","message":"JWT is required"}"#
            );
        }
        StatusDecision::Probe { .. } => panic!("unauthenticated probe"),
    }
}

#[test]
fn status_rejects_empty_identifier() {
    let d = submission_status(None, "", "/spool", "");
    match d {
        StatusDecision::Reject { status, body } => {
            assert_eq!(status, 400);
            assert_eq!(body, r#"{"id":"0","status":"error","message":"Empty id"}"#);
        }
        StatusDecision::Probe { .. } => panic!("empty id probed"),
    }
}

#[test]
fn status_rejects_traversal_identifier() {
    for id in ["../secret", "a/b", "a.b", "a b"] {
        let d = submission_status(None, "", "/spool", id);
        match d {
            StatusDecision::Reject { status, body } => {
                assert_eq!(status, 400);
                assert_eq!(body, r#"{"id":"0","status":"error","message":"Invalid id"}"#);
            }
            StatusDecision::Probe { .. } => panic!("unsafe id probed"),
        }
    }
}

#[test]
fn status_probes_the_provisional_path() {
    let d = submission_status(None, "", "/spool", "abc123");
    match d {
        StatusDecision::Probe { temp_path } => {
            assert_eq!(temp_path, "/spool/submission-abc123.json.temp");
        }
        StatusDecision::Reject { .. } => panic!("valid id rejected"),
    }
}

#[test]
fn status_answers_report_in_progress_entries_only() {
    let (status, body) = status_response("abc123", true);
    assert_eq!(status, 200);
    assert_eq!(
        body,
        r#"{"id":"abc123","status":"ok","message":"File found"}"#
    );
    let (status, body) = status_response("abc123", false);
    assert_eq!(status, 404);
    assert_eq!(
        body,
        r#"{"id":"abc123","status":"notfound","message":"File not found"}"#
    );
}

#[test]
fn missing_spool_directory_is_detected() {
    // Nothing plausibly exists at this path.
    assert!(!verify_submission_path(
        "/nonexistent-spool-directory-for-this-test"
    ));
}
