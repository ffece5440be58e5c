//! The spooling protocol: durable hand-off of one payload under one
//! identifier.
//!
//! An entry is written under a provisional name (`submission-<id>.json.temp`)
//! and becomes complete only through one atomic rename to its final name
//! (`submission-<id>.json`). The directory is modelled here as a map from
//! file name to content; the lemmas prove that no sequence of protocol steps
//! ever shows a file under a final name whose content differs from the full
//! payload, and that a completed publish leaves no provisional file behind.

use crate::ident::id_valid;
use vstd::prelude::*;
use vstd::string::*;

verus! {

/// The provisional file name an entry occupies while in progress.
pub open spec fn temp_name(id: Seq<char>) -> Seq<char> {
    "submission-"@ + id + ".json.temp"@
}

/// The final file name of a complete entry.
pub open spec fn final_name(id: Seq<char>) -> Seq<char> {
    "submission-"@ + id + ".json"@
}

/// A file name placed under the spool directory.
pub open spec fn spool_path(dir: Seq<char>, name: Seq<char>) -> Seq<char> {
    dir + "/"@ + name
}

/// Composes the provisional path for an entry.
pub fn temp_path(directory: &str, id: &str) -> (p: String)
    ensures
        p@ == spool_path(directory@, temp_name(id@)),
{
    let mut p = directory.to_owned();
    p.append("/");
    p.append("submission-");
    p.append(id);
    p.append(".json.temp");
    proof {
        assert(p@ =~= spool_path(directory@, temp_name(id@)));
    }
    p
}

/// Composes the final path for an entry.
pub fn final_path(directory: &str, id: &str) -> (p: String)
    ensures
        p@ == spool_path(directory@, final_name(id@)),
{
    let mut p = directory.to_owned();
    p.append("/");
    p.append("submission-");
    p.append(id);
    p.append(".json");
    proof {
        assert(p@ =~= spool_path(directory@, final_name(id@)));
    }
    p
}

/// Relies on `std::path::Path::exists` of std: whether the path points at
/// an existing filesystem entity; the answer depends on the disk.
#[verifier::external_body]
fn path_exists(path: &str) -> bool {
    std::path::Path::new(path).exists()
}

/// Relies on `std::path::Path::is_dir` of std: whether the path points at
/// a directory; the answer depends on the disk.
#[verifier::external_body]
fn path_is_dir(path: &str) -> bool {
    std::path::Path::new(path).is_dir()
}

/// Whether the spool path exists and is a directory. The process must
/// refuse to start when this does not hold.
pub fn verify_submission_path(path: &str) -> bool {
    path_exists(path) && path_is_dir(path)
}

/// One step of the spooling protocol.
pub enum SpoolOp {
    /// Write (or overwrite) the provisional file of an entry; `data` is
    /// what has reached the disk so far, a prefix of the full payload.
    WriteTemp { id: Seq<char>, data: Seq<u8> },
    /// Atomically rename the provisional file to the final name.
    Publish { id: Seq<char> },
}

/// Whether one step may be taken in the given directory state. `payloads`
/// maps each identifier to the full payload of its entry. A publish is
/// taken only once the entire payload has been written: the rename never
/// precedes completion of the write.
pub open spec fn op_allowed(
    files: Map<Seq<char>, Seq<u8>>,
    payloads: Map<Seq<char>, Seq<u8>>,
    op: SpoolOp,
) -> bool {
    match op {
        SpoolOp::WriteTemp { id, data } => payloads.contains_key(id) && id_valid(id)
            && data.is_prefix_of(payloads[id]),
        SpoolOp::Publish { id } => payloads.contains_key(id) && id_valid(id)
            && files.contains_key(temp_name(id)) && files[temp_name(id)] == payloads[id],
    }
}

/// The directory after one step.
pub open spec fn apply_op(files: Map<Seq<char>, Seq<u8>>, op: SpoolOp) -> Map<
    Seq<char>,
    Seq<u8>,
> {
    match op {
        SpoolOp::WriteTemp { id, data } => files.insert(temp_name(id), data),
        SpoolOp::Publish { id } => files.remove(temp_name(id)).insert(
            final_name(id),
            files[temp_name(id)],
        ),
    }
}

/// Whether a whole sequence of steps is allowed, each in the state the
/// previous ones produced.
pub open spec fn trace_allowed(
    files: Map<Seq<char>, Seq<u8>>,
    payloads: Map<Seq<char>, Seq<u8>>,
    ops: Seq<SpoolOp>,
) -> bool
    decreases ops.len(),
{
    ops.len() == 0 || (op_allowed(files, payloads, ops[0]) && trace_allowed(
        apply_op(files, ops[0]),
        payloads,
        ops.drop_first(),
    ))
}

/// The directory after a whole sequence of steps.
pub open spec fn apply_ops(files: Map<Seq<char>, Seq<u8>>, ops: Seq<SpoolOp>) -> Map<
    Seq<char>,
    Seq<u8>,
>
    decreases ops.len(),
{
    if ops.len() == 0 {
        files
    } else {
        apply_ops(apply_op(files, ops[0]), ops.drop_first())
    }
}

/// The spool invariant: every file under a final name holds exactly the
/// full payload of its entry, and every provisional file holds a prefix of
/// its entry's payload.
pub open spec fn spool_inv(
    files: Map<Seq<char>, Seq<u8>>,
    payloads: Map<Seq<char>, Seq<u8>>,
) -> bool {
    (forall|id: Seq<char>|
        payloads.contains_key(id) && #[trigger] files.contains_key(final_name(id))
            ==> files[final_name(id)] == payloads[id]) && (forall|id: Seq<char>|
        payloads.contains_key(id) && #[trigger] files.contains_key(temp_name(id))
            ==> files[temp_name(id)].is_prefix_of(payloads[id]))
}

/// Final names determine their identifier.
pub proof fn lemma_final_name_injective(a: Seq<char>, b: Seq<char>)
    requires
        final_name(a) == final_name(b),
    ensures
        a == b,
{
    reveal_strlit("submission-");
    reveal_strlit(".json");
    assert("submission-"@.len() == 11 && ".json"@.len() == 5);
    assert(final_name(a).len() == 16 + a.len() && final_name(b).len() == 16 + b.len());
    assert(a.len() == b.len());
    assert forall|i: int| 0 <= i < a.len() implies a[i] == b[i] by {
        assert(final_name(a)[11 + i] == a[i]);
        assert(final_name(b)[11 + i] == b[i]);
    }
    assert(a =~= b);
}

/// Provisional names determine their identifier.
pub proof fn lemma_temp_name_injective(a: Seq<char>, b: Seq<char>)
    requires
        temp_name(a) == temp_name(b),
    ensures
        a == b,
{
    reveal_strlit("submission-");
    reveal_strlit(".json.temp");
    assert("submission-"@.len() == 11 && ".json.temp"@.len() == 10);
    assert(temp_name(a).len() == 21 + a.len() && temp_name(b).len() == 21 + b.len());
    assert(a.len() == b.len());
    assert forall|i: int| 0 <= i < a.len() implies a[i] == b[i] by {
        assert(temp_name(a)[11 + i] == a[i]);
        assert(temp_name(b)[11 + i] == b[i]);
    }
    assert(a =~= b);
}

/// A provisional name is never a final name: the two suffixes end in
/// different characters, so a consumer watching for final names cannot see
/// an entry that is still in progress.
pub proof fn lemma_temp_final_distinct(a: Seq<char>, b: Seq<char>)
    ensures
        temp_name(a) != final_name(b),
{
    reveal_strlit("submission-");
    reveal_strlit(".json");
    reveal_strlit(".json.temp");
    let t = temp_name(a);
    let f = final_name(b);
    assert(t[t.len() - 1] == 'p');
    assert(f[f.len() - 1] == 'n');
    if t == f {
        assert(t[t.len() - 1] == f[f.len() - 1]);
    }
}

/// One allowed step keeps the spool invariant.
pub proof fn lemma_op_preserves_inv(
    files: Map<Seq<char>, Seq<u8>>,
    payloads: Map<Seq<char>, Seq<u8>>,
    op: SpoolOp,
)
    requires
        spool_inv(files, payloads),
        op_allowed(files, payloads, op),
    ensures
        spool_inv(apply_op(files, op), payloads),
{
    let files2 = apply_op(files, op);
    match op {
        SpoolOp::WriteTemp { id, data } => {
            assert forall|id2: Seq<char>|
                payloads.contains_key(id2) && #[trigger] files2.contains_key(final_name(id2))
                    implies files2[final_name(id2)] == payloads[id2] by {
                lemma_temp_final_distinct(id, id2);
            }
            assert forall|id2: Seq<char>|
                payloads.contains_key(id2) && #[trigger] files2.contains_key(temp_name(id2))
                    implies files2[temp_name(id2)].is_prefix_of(payloads[id2]) by {
                if temp_name(id2) == temp_name(id) {
                    lemma_temp_name_injective(id, id2);
                }
            }
        },
        SpoolOp::Publish { id } => {
            assert forall|id2: Seq<char>|
                payloads.contains_key(id2) && #[trigger] files2.contains_key(final_name(id2))
                    implies files2[final_name(id2)] == payloads[id2] by {
                if final_name(id2) == final_name(id) {
                    lemma_final_name_injective(id, id2);
                } else {
                    lemma_temp_final_distinct(id, id2);
                }
            }
            assert forall|id2: Seq<char>|
                payloads.contains_key(id2) && #[trigger] files2.contains_key(temp_name(id2))
                    implies files2[temp_name(id2)].is_prefix_of(payloads[id2]) by {
                lemma_temp_final_distinct(id2, id);
            }
        },
    }
}

/// Atomicity of publish: from any directory satisfying the spool invariant
/// (the empty directory does), no sequence of allowed protocol steps —
/// however the writes of concurrent entries interleave — ever shows a file
/// under a final name whose content is anything but the entry's full
/// payload.
pub proof fn lemma_no_partial_final_visible(
    files: Map<Seq<char>, Seq<u8>>,
    payloads: Map<Seq<char>, Seq<u8>>,
    ops: Seq<SpoolOp>,
)
    requires
        spool_inv(files, payloads),
        trace_allowed(files, payloads, ops),
    ensures
        spool_inv(apply_ops(files, ops), payloads),
    decreases ops.len(),
{
    if ops.len() > 0 {
        lemma_op_preserves_inv(files, payloads, ops[0]);
        lemma_no_partial_final_visible(apply_op(files, ops[0]), payloads, ops.drop_first());
    }
}

/// A completed hand-off: writing the whole payload and then publishing is
/// an allowed trace, and it leaves the payload byte-identical under the
/// final name with no provisional file remaining for that entry.
pub proof fn lemma_publish_completes(
    files: Map<Seq<char>, Seq<u8>>,
    payloads: Map<Seq<char>, Seq<u8>>,
    id: Seq<char>,
)
    requires
        payloads.contains_key(id),
        id_valid(id),
    ensures
        ({
            let ops = seq![
                SpoolOp::WriteTemp { id, data: payloads[id] },
                SpoolOp::Publish { id },
            ];
            let after = apply_ops(files, ops);
            trace_allowed(files, payloads, ops) && after.contains_key(final_name(id))
                && after[final_name(id)] == payloads[id] && !after.contains_key(temp_name(id))
        }),
{
    let ops = seq![SpoolOp::WriteTemp { id, data: payloads[id] }, SpoolOp::Publish { id }];
    let rest = ops.drop_first();
    assert(ops[0] == SpoolOp::WriteTemp { id, data: payloads[id] });
    assert(rest[0] == ops[1] && ops[1] == SpoolOp::Publish { id });
    assert(rest.drop_first().len() == 0);
    let f1 = apply_op(files, ops[0]);
    let f2 = apply_op(f1, ops[1]);
    assert(payloads[id].is_prefix_of(payloads[id]));
    assert(f1.contains_key(temp_name(id)) && f1[temp_name(id)] == payloads[id]);
    assert(op_allowed(files, payloads, ops[0]));
    assert(op_allowed(f1, payloads, rest[0]));
    assert(trace_allowed(f2, payloads, rest.drop_first()));
    assert(trace_allowed(f1, payloads, rest));
    assert(trace_allowed(files, payloads, ops));
    lemma_temp_final_distinct(id, id);
    assert(apply_ops(f2, rest.drop_first()) == f2);
    assert(apply_ops(f1, rest) == f2);
    assert(apply_ops(files, ops) == f2);
}

} // verus!
