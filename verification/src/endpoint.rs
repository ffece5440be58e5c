//! The endpoint orchestration, as decisions over plain values: what each
//! request is answered and which spool paths, if any, the disk work must
//! use. The network and the disk sit outside; they hand the request pieces
//! in and carry the decided actions out.

use crate::auth::{
    auth_determined, auth_error_message, cred_view, determined_outcome, verify_auth,
    verify_auth_post, AuthError,
};
use crate::ident::{id_valid, random_string, validate_identifier};
use crate::json::{answer_json, generate_answer, json_parse_error, json_well_formed,
    parse_json_document};
use crate::spool::{
    apply_ops, final_name, final_path, spool_path, temp_name, temp_path, trace_allowed, SpoolOp,
};
use crate::text::{dec_rep, u64_to_string};
use vstd::prelude::*;
use vstd::string::*;

verus! {

/// The length of generated identifiers: long enough that the birthday
/// bound makes a collision negligible, so the spool writer checks for no
/// pre-existing file.
pub const ID_LENGTH: usize = 32;

/// What the ingestion endpoint decides for one request, before any disk
/// work.
pub enum SubmitDecision {
    /// Answer at once with this HTTP status and body; the spool is not
    /// touched. Every rejection is counted as one error.
    Reject { status: u16, body: String },
    /// Spool the body: write it whole to `temp_path`, then publish it by
    /// renaming to `final_path`, and answer with
    /// [`submit_success_response`].
    Accept { id: String, temp_path: String, final_path: String },
}

/// The ingestion decision once the authentication outcome is known: a
/// refused credential is a `401` carrying the refusal; a body that is not
/// one well-formed JSON document is a `400` carrying the parser's message;
/// otherwise the request is accepted under a fresh well-formed identifier
/// whose provisional and final paths follow the spooling protocol.
pub open spec fn submit_post(
    auth: Result<(), AuthError>,
    dir: Seq<char>,
    body: Seq<char>,
    d: SubmitDecision,
) -> bool {
    match auth {
        Result::Err(e) => d matches SubmitDecision::Reject { status, body: b } && status == 401
            && b@ == answer_json("0"@, "error"@, Option::Some(auth_error_message(e))),
        Result::Ok(_) => if json_well_formed(body) {
            d matches SubmitDecision::Accept { id, temp_path: t, final_path: f } && id@.len()
                == ID_LENGTH && id_valid(id@) && t@ == spool_path(dir, temp_name(id@)) && f@
                == spool_path(dir, final_name(id@))
        } else {
            d matches SubmitDecision::Reject { status, body: b } && status == 400 && b@
                == answer_json("0"@, "error"@, json_parse_error(body))
        },
    }
}

/// Decides one ingestion request whose authentication outcome is `auth`.
pub fn submit_process(auth: Result<(), AuthError>, directory: &str, body: &str) -> (d:
    SubmitDecision)
    ensures
        submit_post(auth, directory@, body@, d),
{
    match auth {
        Err(e) => {
            let answer = generate_answer("error", "0", Some(e.message()));
            SubmitDecision::Reject { status: 401, body: answer }
        },
        Ok(()) => {
            match parse_json_document(body) {
                Err(m) => {
                    let answer = generate_answer("error", "0", Some(m));
                    SubmitDecision::Reject { status: 400, body: answer }
                },
                Ok(()) => {
                    let id = random_string(ID_LENGTH);
                    let t = temp_path(directory, id.as_str());
                    let f = final_path(directory, id.as_str());
                    SubmitDecision::Accept { id, temp_path: t, final_path: f }
                },
            }
        },
    }
}

/// What the whole ingestion flow promises: some authentication outcome the
/// verifier's contract allows was followed.
pub open spec fn receive_post(
    credential: Option<Seq<char>>,
    secret: Seq<char>,
    dir: Seq<char>,
    body: Seq<char>,
    d: SubmitDecision,
) -> bool {
    exists|r: Result<(), AuthError>|
        #[trigger] verify_auth_post(credential, secret, r) && submit_post(r, dir, body, d)
}

/// Handles one ingestion request up to the disk hand-off: authenticate,
/// check the body is one well-formed JSON document, draw the identifier,
/// compose the spool paths.
pub fn receive_submission(credential: Option<&str>, secret: &str, directory: &str, body: &str) -> (d:
    SubmitDecision)
    ensures
        receive_post(cred_view(credential), secret@, directory@, body@, d),
        auth_determined(cred_view(credential), secret@) ==> submit_post(
            determined_outcome(cred_view(credential), secret@),
            directory@,
            body@,
            d,
        ),
{
    let auth = verify_auth(credential, secret);
    let ghost auth_spec = auth;
    let d = submit_process(auth, directory, body);
    proof {
        assert(verify_auth_post(cred_view(credential), secret@, auth_spec) && submit_post(
            auth_spec,
            directory@,
            body@,
            d,
        ));
    }
    d
}

/// The message of a successful answer.
pub open spec fn success_message(id: Seq<char>, size: nat) -> Seq<char> {
    "Received submission "@ + id + " with size "@ + dec_rep(size) + " bytes"@
}

/// The `200` answer once the spool hand-off succeeded; `size` is the byte
/// length of the stored payload.
pub fn submit_success_response(id: &str, size: u64) -> (r: (u16, String))
    ensures
        r.0 == 200,
        r.1@ == answer_json(id@, "ok"@, Option::Some(success_message(id@, size as nat))),
{
    let mut msg = "Received submission ".to_owned();
    msg.append(id);
    msg.append(" with size ");
    let n = u64_to_string(size);
    msg.append(n.as_str());
    msg.append(" bytes");
    proof {
        assert(msg@ =~= success_message(id@, size as nat));
    }
    let body = generate_answer("ok", id, Some(msg));
    (200, body)
}

/// The `500` answer when writing or publishing the payload failed: fatal
/// to the request, not to the process.
pub fn spool_failure_response(id: &str) -> (r: (u16, String))
    ensures
        r.0 == 500,
        r.1@ == answer_json(id@, "error"@, Option::Some("Failed to store submission"@)),
{
    let body = generate_answer("error", id, Some("Failed to store submission".to_owned()));
    (500, body)
}

/// What the status endpoint decides for one request.
pub enum StatusDecision {
    /// Answer at once with this HTTP status and body.
    Reject { status: u16, body: String },
    /// Probe whether the provisional file exists and answer with
    /// [`status_response`]: the endpoint reports an entry only while it is
    /// still in progress.
    Probe { temp_path: String },
}

/// The status decision once the authentication outcome is known: a refused
/// credential is a `401`; an empty or non-alphanumeric identifier is a
/// `400` (the identifier is caller-supplied, so this validation is what
/// keeps it safe to place into a path); otherwise the provisional path is
/// probed.
pub open spec fn status_post(
    auth: Result<(), AuthError>,
    dir: Seq<char>,
    id: Seq<char>,
    d: StatusDecision,
) -> bool {
    match auth {
        Result::Err(e) => d matches StatusDecision::Reject { status, body: b } && status == 401
            && b@ == answer_json("0"@, "error"@, Option::Some(auth_error_message(e))),
        Result::Ok(_) => if id.len() == 0 {
            d matches StatusDecision::Reject { status, body: b } && status == 400 && b@
                == answer_json("0"@, "error"@, Option::Some("Empty id"@))
        } else if !id_valid(id) {
            d matches StatusDecision::Reject { status, body: b } && status == 400 && b@
                == answer_json("0"@, "error"@, Option::Some("Invalid id"@))
        } else {
            d matches StatusDecision::Probe { temp_path: t } && t@ == spool_path(
                dir,
                temp_name(id),
            )
        },
    }
}

/// Decides one status request whose authentication outcome is `auth`.
pub fn status_process(auth: Result<(), AuthError>, directory: &str, id: &str) -> (d:
    StatusDecision)
    ensures
        status_post(auth, directory@, id@, d),
{
    match auth {
        Err(e) => {
            let answer = generate_answer("error", "0", Some(e.message()));
            StatusDecision::Reject { status: 401, body: answer }
        },
        Ok(()) => {
            if id.is_empty() {
                let answer = generate_answer("error", "0", Some("Empty id".to_owned()));
                return StatusDecision::Reject { status: 400, body: answer };
            }
            if !validate_identifier(id) {
                let answer = generate_answer("error", "0", Some("Invalid id".to_owned()));
                return StatusDecision::Reject { status: 400, body: answer };
            }
            let t = temp_path(directory, id);
            StatusDecision::Probe { temp_path: t }
        },
    }
}

/// What the whole status flow promises.
pub open spec fn submission_status_post(
    credential: Option<Seq<char>>,
    secret: Seq<char>,
    dir: Seq<char>,
    id: Seq<char>,
    d: StatusDecision,
) -> bool {
    exists|r: Result<(), AuthError>|
        #[trigger] verify_auth_post(credential, secret, r) && status_post(r, dir, id, d)
}

/// Handles one status request up to the probe of the provisional path.
pub fn submission_status(credential: Option<&str>, secret: &str, directory: &str, id: &str) -> (d:
    StatusDecision)
    ensures
        submission_status_post(cred_view(credential), secret@, directory@, id@, d),
        auth_determined(cred_view(credential), secret@) ==> status_post(
            determined_outcome(cred_view(credential), secret@),
            directory@,
            id@,
            d,
        ),
{
    let auth = verify_auth(credential, secret);
    let ghost auth_spec = auth;
    let d = status_process(auth, directory, id);
    proof {
        assert(verify_auth_post(cred_view(credential), secret@, auth_spec) && status_post(
            auth_spec,
            directory@,
            id@,
            d,
        ));
    }
    d
}

/// The answer once the probe is done. The endpoint reports `ok` only for
/// an entry still in progress; a published entry is reported absent.
pub fn status_response(id: &str, found: bool) -> (r: (u16, String))
    ensures
        found ==> r.0 == 200 && r.1@ == answer_json(id@, "ok"@, Option::Some("File found"@)),
        !found ==> r.0 == 404 && r.1@ == answer_json(
            id@,
            "notfound"@,
            Option::Some("File not found"@),
        ),
{
    if found {
        (200, generate_answer("ok", id, Some("File found".to_owned())))
    } else {
        (404, generate_answer("notfound", id, Some("File not found".to_owned())))
    }
}

/// A request refused by the verifier writes nothing: the decision is a
/// `401` rejection and carries no spool path.
pub proof fn lemma_unauthorized_writes_nothing(
    auth: Result<(), AuthError>,
    dir: Seq<char>,
    body: Seq<char>,
    d: SubmitDecision,
)
    requires
        auth is Err,
        submit_post(auth, dir, body, d),
    ensures
        d matches SubmitDecision::Reject { status, .. } && status == 401,
{
}

/// A malformed body writes nothing: the decision is a `400` rejection and
/// carries no spool path.
pub proof fn lemma_malformed_body_writes_nothing(
    dir: Seq<char>,
    body: Seq<char>,
    d: SubmitDecision,
)
    requires
        !json_well_formed(body),
        submit_post(Result::Ok(()), dir, body, d),
    ensures
        d matches SubmitDecision::Reject { status, .. } && status == 400,
{
}

/// The write-then-publish trace of one accepted entry.
pub open spec fn publish_trace(id: Seq<char>, data: Seq<u8>) -> Seq<SpoolOp> {
    seq![SpoolOp::WriteTemp { id, data }, SpoolOp::Publish { id }]
}

/// An accepted submission completes the durable hand-off: carrying out the
/// decision's spooling protocol on a directory that holds the request's
/// payload for the decided identifier leaves that payload byte-identical
/// under the final name, with no provisional file remaining for it — and
/// the decision's two paths are exactly the protocol's paths.
pub proof fn lemma_accepted_submission_durable(
    auth: Result<(), AuthError>,
    dir: Seq<char>,
    body: Seq<char>,
    d: SubmitDecision,
    files: Map<Seq<char>, Seq<u8>>,
    payloads: Map<Seq<char>, Seq<u8>>,
    id: Seq<char>,
)
    requires
        submit_post(auth, dir, body, d),
        d matches SubmitDecision::Accept { id: i, .. } && i@ == id,
        payloads.contains_key(id),
    ensures
        auth is Ok,
        json_well_formed(body),
        id.len() == ID_LENGTH && id_valid(id),
        trace_allowed(files, payloads, publish_trace(id, payloads[id])),
        ({
            let after = apply_ops(files, publish_trace(id, payloads[id]));
            after.contains_key(final_name(id)) && after[final_name(id)] == payloads[id]
                && !after.contains_key(temp_name(id))
        }),
        (d matches SubmitDecision::Accept { temp_path: t, final_path: f, .. } && t@ == spool_path(
            dir,
            temp_name(id),
        ) && f@ == spool_path(dir, final_name(id))),
{
    crate::spool::lemma_publish_completes(files, payloads, id);
}

} // verus!
