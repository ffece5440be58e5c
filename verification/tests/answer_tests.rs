//! The JSON answers and the metrics text: exact bytes, and agreement with
//! an ordinary JSON serializer on escaping.

use kcidb_restd::json::generate_answer;
use kcidb_restd::metrics::{submission_metrics, Metrics};
use kcidb_restd::text::u64_to_string;

#[test]
fn answer_with_message_is_exact() {
    let a = generate_answer("ok", "abc", Some("File found".to_string()));
    assert_eq!(a, r#"{"id":"abc","status":"ok","message":"File found"}"#);
}

#[test]
fn answer_without_message_is_exact() {
    let a = generate_answer("error", "0", None);
    assert_eq!(a, r#"{"id":"0","status":"error","message":null}"#);
}

#[test]
fn answer_escapes_like_a_json_serializer() {
    let messages = [
        "plain",
        "with \"quotes\" and \\backslash\\",
        "newline\nand\ttab",
        "control\u{01}\u{08}\u{0c}\u{0d}\u{1f}chars",
        "unicode \u{00e9}\u{4e16} stays",
    ];
    for m in messages {
        let a = generate_answer("ok", "id1", Some(m.to_string()));
        let parsed: serde_json::Value = serde_json::from_str(&a).unwrap();
        assert_eq!(parsed.get("id").unwrap().as_str(), Some("id1"));
        assert_eq!(parsed.get("status").unwrap().as_str(), Some("ok"));
        assert_eq!(parsed.get("message").unwrap().as_str(), Some(m));
        // And byte-for-byte what the ordinary serializer would have
        // produced for the same record and field order.
        let escaped_message = serde_json::to_string(m).unwrap();
        let expected = format!(
            r#"{{"id":"id1","status":"ok","message":{}}}"#,
            escaped_message
        );
        assert_eq!(a, expected);
    }
}

#[test]
fn decimal_rendering_is_exact() {
    assert_eq!(u64_to_string(0), "0");
    assert_eq!(u64_to_string(7), "7");
    assert_eq!(u64_to_string(10), "10");
    assert_eq!(u64_to_string(409), "409");
    assert_eq!(u64_to_string(18446744073709551615), "18446744073709551615");
}

#[test]
fn metrics_text_is_exact() {
    let text = submission_metrics(3, 1, 2);
    let expected = "# HELP kcdb_submissions_total Total number of submissions received\n\
                    # TYPE kcdb_submissions_total counter\n\
                    kcdb_submissions_total 3\n\
                    # HELP kcdb_errors_total Total number of errors encountered\n\
                    # TYPE kcdb_errors_total counter\n\
                    kcdb_errors_total 1\n\
                    # HELP kcdb_json_files_total Total number of JSON files in the spool directory\n\
                    # TYPE kcdb_json_files_total gauge\n\
                    kcdb_json_files_total 2\n";
    assert_eq!(text, expected);
}

#[test]
fn counters_step_independently() {
    let mut m = Metrics::new();
    assert_eq!((m.submissions, m.errors), (0, 0));
    m.record_submission();
    m.record_submission();
    m.record_error();
    assert_eq!((m.submissions, m.errors), (2, 1));
    m.record_submission();
    assert_eq!((m.submissions, m.errors), (3, 1));
}
