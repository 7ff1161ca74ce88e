//! Laws of the writers, proved against a model of the filesystem.
//!
//! The model is a map from each existing path to its full content. A plan
//! returned by a writer acts on the model through the effect functions here
//! (directory creation does not show up in the model: it never changes any
//! file's content), and `observed` says when an observation handed to a writer
//! call is the truthful one for a model state.

use vstd::prelude::*;
use crate::writer::ArtifactDifferenceWriter;
use crate::writer::ArtifactWriter;
use crate::writer::RemovePlan;
use crate::writer::WritePlan;
use crate::writer::direct_write_plan;

verus! {

/// Whether `existing` is the truthful observation of `path` in the filesystem
/// model `fs`: the current content when the path exists, `None` otherwise.
pub open spec fn observed(fs: Map<Seq<u8>, Seq<u8>>, path: Seq<u8>, existing: Option<Vec<u8>>) -> bool {
    match existing {
        Option::Some(cur) => fs.contains_key(path) && cur@ == fs[path],
        Option::None => !fs.contains_key(path),
    }
}

/// The filesystem model after the shell carries out a write plan.
pub open spec fn write_plan_effect(fs: Map<Seq<u8>, Seq<u8>>, plan: WritePlan) -> Map<Seq<u8>, Seq<u8>> {
    match plan {
        WritePlan::Skip => fs,
        WritePlan::Write { path, content, create_parent_dirs } => fs.insert(path@, content@),
    }
}

/// The filesystem model after the shell carries out a remove plan. A deletion
/// of an absent path fails on the real filesystem and is absorbed; on the
/// model both outcomes are the map without the key.
pub open spec fn remove_plan_effect(fs: Map<Seq<u8>, Seq<u8>>, plan: RemovePlan) -> Map<Seq<u8>, Seq<u8>> {
    match plan {
        RemovePlan::Keep => fs,
        RemovePlan::Delete { path } => fs.remove(path@),
    }
}

/// Law: the direct writer's `write_if_changed` is idempotent towards the
/// filesystem. After the plan of one call is carried out, a second call with
/// the same path and content — under the observation that is then truthful —
/// skips, so exactly one physical write happens.
pub proof fn lemma_direct_write_idempotent(
    fs: Map<Seq<u8>, Seq<u8>>,
    path1: Vec<u8>,
    content1: Vec<u8>,
    existing1: Option<Vec<u8>>,
    path2: Vec<u8>,
    content2: Vec<u8>,
    existing2: Option<Vec<u8>>,
)
    requires
        observed(fs, path1@, existing1),
        path2@ == path1@,
        content2@ == content1@,
        observed(
            write_plan_effect(fs, direct_write_plan(path1, content1, existing1)),
            path2@,
            existing2,
        ),
    ensures
        direct_write_plan(path2, content2, existing2) == WritePlan::Skip,
{
    let fs1 = write_plan_effect(fs, direct_write_plan(path1, content1, existing1));
    assert(fs1.contains_key(path1@) && fs1[path1@] == content1@);
}

/// Law: removing an absent path has no observable effect. The direct writer's
/// best-effort deletion plan leaves the filesystem model unchanged when the
/// path is not there; the recording writer does not even append a record for
/// it (see its `remove_spec`).
pub proof fn lemma_remove_absent_no_effect(fs: Map<Seq<u8>, Seq<u8>>, path: Vec<u8>)
    requires
        !fs.contains_key(path@),
    ensures
        remove_plan_effect(fs, RemovePlan::Delete { path }) == fs,
        remove_plan_effect(fs, RemovePlan::Keep) == fs,
{
    assert(fs.remove(path@) =~= fs);
}

/// Law: with filesystem verification off, a recording session of N write
/// calls grows the `changed` log by exactly N records and leaves the
/// `removed` log alone, whatever the observations were. `states` are the
/// writer states around the calls and `calls` the arguments of each call.
pub proof fn lemma_unverified_session_records_every_call(
    states: Seq<ArtifactDifferenceWriter>,
    calls: Seq<(Vec<u8>, Vec<u8>, Option<Vec<u8>>)>,
)
    requires
        states.len() == calls.len() + 1,
        !states[0].verify_changes_against_filesystem,
        forall|k: int| 0 <= k < calls.len() ==> ArtifactDifferenceWriter::write_spec(
            states[k],
            states[k + 1],
            (#[trigger] calls[k]).0,
            calls[k].1,
            calls[k].2,
            WritePlan::Skip,
        ),
    ensures
        states.last().codegen_records.changed@.len()
            == states[0].codegen_records.changed@.len() + calls.len(),
        states.last().codegen_records.removed == states[0].codegen_records.removed,
        states.last().verify_changes_against_filesystem
            == states[0].verify_changes_against_filesystem,
    decreases calls.len(),
{
    if calls.len() == 0 {
        assert(states.last() == states[0]);
    } else {
        let states1 = states.skip(1);
        let calls1 = calls.skip(1);
        assert(ArtifactDifferenceWriter::write_spec(
            states[0],
            states[1],
            calls[0].0,
            calls[0].1,
            calls[0].2,
            WritePlan::Skip,
        ));
        assert(states[1].codegen_records.changed@.len()
            == states[0].codegen_records.changed@.len() + 1);
        assert forall|k: int| 0 <= k < calls1.len() implies ArtifactDifferenceWriter::write_spec(
            states1[k],
            states1[k + 1],
            (#[trigger] calls1[k]).0,
            calls1[k].1,
            calls1[k].2,
            WritePlan::Skip,
        ) by {
            assert(calls1[k] == calls[k + 1]);
            assert(states1[k] == states[k + 1]);
            assert(states1[k + 1] == states[k + 2]);
        }
        lemma_unverified_session_records_every_call(states1, calls1);
        assert(states1.last() == states.last());
    }
}

} // verus!
