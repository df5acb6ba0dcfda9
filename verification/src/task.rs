use vstd::prelude::*;
use vstd::string::StringExecFns;

use crate::codec::{Codec, CodecError, codec_set, encode, encoded_spec, full_codec_set, suffix,
    suffix_spec};

verus! {

/// The unit of scheduling: one discovered file bound to the full codec set.
/// Exactly one task exists per discovered file, and all of that file's
/// codecs run inside it.
pub struct CompressionTask {
    pub path: String,
    pub codecs: Vec<Codec>,
}

impl CompressionTask {
    /// The one task created for a discovered file.
    pub fn new(path: String) -> (t: CompressionTask)
        ensures
            t.path == path,
            t.codecs@ == full_codec_set(),
    {
        CompressionTask { path, codecs: codec_set() }
    }
}

/// The output path of one codec for one source file: the source path with
/// that codec's suffix appended.
pub open spec fn output_path_spec(path: Seq<char>, c: Codec) -> Seq<char> {
    path + suffix_spec(c)
}

/// Derive the output path of one codec for one source file.
pub fn output_path(path: &String, c: Codec) -> (r: String)
    ensures
        r@ == output_path_spec(path@, c),
{
    path.clone().concat(suffix(c))
}

/// Law: distinct codecs never collide on an output path: their suffixes
/// differ, so the derived paths differ whatever the source path is.
pub proof fn lemma_output_paths_distinct(path: Seq<char>, c1: Codec, c2: Codec)
    requires
        c1 != c2,
    ensures
        output_path_spec(path, c1) != output_path_spec(path, c2),
{
    let s1 = suffix_spec(c1);
    let s2 = suffix_spec(c2);
    if s1.len() == s2.len() {
        assert(output_path_spec(path, c1)[path.len() as int + 1] == s1[1]);
        assert(output_path_spec(path, c2)[path.len() as int + 1] == s2[1]);
        assert(s1[1] != s2[1]);
    } else {
        assert(output_path_spec(path, c1).len() != output_path_spec(path, c2).len());
    }
}

/// What one codec invocation inside a task produced: the codec, the output
/// path derived for it, and either the compressed bytes or the failure
/// signal.
pub struct CodecOutcome {
    pub codec: Codec,
    pub output_path: String,
    pub bytes: Result<Vec<u8>, CodecError>,
}

/// Bind the result an encoder handed back for one codec to that codec's
/// output path. The outcome records exactly what came back: a failure is
/// recorded, never dropped.
pub fn apply_codec(path: &String, c: Codec, encoded: Result<Vec<u8>, CodecError>) -> (o:
    CodecOutcome)
    ensures
        o.codec == c,
        o.output_path@ == output_path_spec(path@, c),
        o.bytes == encoded,
{
    CodecOutcome { codec: c, output_path: output_path(path, c), bytes: encoded }
}

/// What a task's report says: one outcome per codec of the task, in the
/// task's order, each bound to its own codec's output path, and each success
/// carrying that codec's one output for the source bytes. Each entry speaks
/// only of its own codec: no entry depends on another codec's outcome.
pub open spec fn report_matches(t: CompressionTask, data: Seq<u8>, outcomes: Seq<CodecOutcome>) -> bool {
    &&& outcomes.len() == t.codecs@.len()
    &&& forall|i: int|
        0 <= i < outcomes.len() ==> {
            &&& (#[trigger] outcomes[i]).codec == t.codecs@[i]
            &&& outcomes[i].output_path@ == output_path_spec(t.path@, t.codecs@[i])
            &&& (outcomes[i].bytes is Ok ==> outcomes[i].bytes.unwrap()@ == encoded_spec(
                t.codecs@[i],
                data,
            ))
        }
}

/// Law: running one task twice on the same source bytes is idempotent up to
/// failures: the two reports list the same codecs and the same output paths,
/// and at every codec where both attempts succeeded the artifacts are
/// byte-identical.
pub proof fn lemma_task_idempotent(
    t: CompressionTask,
    data: Seq<u8>,
    r1: Seq<CodecOutcome>,
    r2: Seq<CodecOutcome>,
)
    requires
        report_matches(t, data, r1),
        report_matches(t, data, r2),
    ensures
        r1.len() == r2.len(),
        forall|i: int|
            0 <= i < r1.len() ==> {
                &&& (#[trigger] r1[i]).codec == r2[i].codec
                &&& r1[i].output_path@ == r2[i].output_path@
                &&& ((r1[i].bytes is Ok && r2[i].bytes is Ok) ==> r1[i].bytes.unwrap()@
                    == r2[i].bytes.unwrap()@)
            },
{
}

/// Run every codec of a task on the source bytes, collecting one outcome per
/// codec in the task's order. Every codec is attempted whatever the others
/// did: one codec's failure removes no entry from the report and stops no
/// other codec of the task.
pub fn execute_task(t: &CompressionTask, data: &Vec<u8>) -> (outcomes: Vec<CodecOutcome>)
    ensures
        report_matches(*t, data@, outcomes@),
{
    let mut outcomes: Vec<CodecOutcome> = Vec::new();
    let mut i: usize = 0;
    while i < t.codecs.len()
        invariant
            0 <= i <= t.codecs@.len(),
            outcomes@.len() == i,
            forall|j: int|
                0 <= j < i ==> {
                    &&& (#[trigger] outcomes@[j]).codec == t.codecs@[j]
                    &&& outcomes@[j].output_path@ == output_path_spec(t.path@, t.codecs@[j])
                    &&& (outcomes@[j].bytes is Ok ==> outcomes@[j].bytes.unwrap()@ == encoded_spec(
                        t.codecs@[j],
                        data@,
                    ))
                },
        decreases t.codecs@.len() - i,
    {
        let c = t.codecs[i];
        let encoded = encode(c, data);
        outcomes.push(apply_codec(&t.path, c, encoded));
        i = i + 1;
    }
    outcomes
}

/// How many outcomes of a report carry compressed bytes.
pub open spec fn count_ok(outcomes: Seq<CodecOutcome>) -> nat
    decreases outcomes.len(),
{
    if outcomes.len() == 0 {
        0
    } else {
        count_ok(outcomes.drop_last()) + if outcomes.last().bytes is Ok {
            1nat
        } else {
            0nat
        }
    }
}

/// The task-level result: the per-codec successes and failures folded into
/// one pair of counts. Every outcome is counted exactly once.
pub struct TaskReport {
    pub succeeded: usize,
    pub failed: usize,
}

/// Fold a task's per-codec outcomes into its task-level report.
pub fn summarize(outcomes: &Vec<CodecOutcome>) -> (rep: TaskReport)
    ensures
        rep.succeeded == count_ok(outcomes@),
        rep.succeeded + rep.failed == outcomes@.len(),
{
    let mut succeeded: usize = 0;
    let mut i: usize = 0;
    while i < outcomes.len()
        invariant
            0 <= i <= outcomes@.len(),
            succeeded == count_ok(outcomes@.subrange(0, i as int)),
            succeeded <= i,
        decreases outcomes@.len() - i,
    {
        proof {
            assert(outcomes@.subrange(0, i + 1).drop_last() =~= outcomes@.subrange(0, i as int));
            assert(outcomes@.subrange(0, i + 1).last() == outcomes@[i as int]);
        }
        if outcomes[i].bytes.is_ok() {
            succeeded = succeeded + 1;
        }
        i = i + 1;
    }
    proof {
        assert(outcomes@.subrange(0, outcomes@.len() as int) =~= outcomes@);
    }
    TaskReport { succeeded, failed: outcomes.len() - succeeded }
}

} // verus!
