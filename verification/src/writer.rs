//! The two artifact writers behind one shared interface.
//!
//! The writers are pure decision layers. Filesystem I/O cannot be verified, so
//! each operation is handed the current observation of the real filesystem for
//! the path in question (`existing`: the current content if the file exists;
//! `exists_on_disk`: whether the path exists) and returns a plan saying what
//! must be done to the real filesystem. A thin unverified shell performs the
//! reads before each call and carries out the returned plan after it.
//!
//! [`ArtifactFileWriter`] materializes artifacts directly: its plans write real
//! files, skipping writes whose target already holds identical content.
//! [`ArtifactDifferenceWriter`] never touches the artifacts: it accumulates a
//! change-set and, on finalize, renders it as a JSON report; its plans are
//! always [`WritePlan::Skip`] and [`RemovePlan::Keep`].

use vstd::prelude::*;
use crate::json::render_report;
use crate::json::report_json;
use crate::records::ArtifactDeletionRecord;
use crate::records::ArtifactUpdateRecord;
use crate::records::CodegenRecords;
use crate::utf8::is_utf8;

verus! {

/// What the filesystem shell must do after a `write_if_changed` call.
pub enum WritePlan {
    /// Leave the real file alone.
    Skip,
    /// Write `content` to `path` in full, first creating the missing parent
    /// directories when `create_parent_dirs` is set.
    Write { path: Vec<u8>, content: Vec<u8>, create_parent_dirs: bool },
}

/// What the filesystem shell must do after a `remove` call.
pub enum RemovePlan {
    /// Leave the real file alone.
    Keep,
    /// Best-effort deletion of `path`: a failure (in particular one caused by
    /// the path being already absent) is absorbed, not surfaced.
    Delete { path: Vec<u8> },
}

/// The direct writer's decision for one `write_if_changed` call: skip when the
/// file already holds the requested content, otherwise write, creating parent
/// directories only when the file does not exist yet.
pub open spec fn direct_write_plan(path: Vec<u8>, content: Vec<u8>, existing: Option<Vec<u8>>) -> WritePlan {
    match existing {
        Option::Some(cur) => if cur@ == content@ {
            WritePlan::Skip
        } else {
            WritePlan::Write { path, content, create_parent_dirs: false }
        },
        Option::None => WritePlan::Write { path, content, create_parent_dirs: true },
    }
}

/// Whether a recording `write_if_changed` call appends an update record:
/// always when filesystem verification is off, and otherwise exactly when the
/// observed content differs from the requested content.
pub open spec fn records_update(verify: bool, content: Vec<u8>, existing: Option<Vec<u8>>) -> bool {
    !verify || match existing {
        Option::Some(cur) => cur@ != content@,
        Option::None => true,
    }
}

/// The shared interface of the artifact writers: request that a path end up
/// holding given content, request that a path no longer exist, and flush any
/// buffered state at the end of the session.
///
/// Each implementation fixes the meaning of the three operations through its
/// spec functions: `inv` is the writer's invariant, the `..._pre` functions
/// are the per-operation preconditions, and the `..._spec` functions relate
/// the writer's state before and after a call to the returned plan.
pub trait ArtifactWriter: Sized {
    /// The writer's invariant, established at construction and preserved by
    /// every operation.
    spec fn inv(&self) -> bool;

    /// What `write_if_changed` asks of its caller.
    spec fn write_pre(&self, path: Seq<u8>, content: Seq<u8>) -> bool;

    /// What `remove` asks of its caller.
    spec fn remove_pre(&self, path: Seq<u8>) -> bool;

    /// How a `write_if_changed` call relates the old and new writer state to
    /// the returned plan.
    spec fn write_spec(
        pre: Self,
        post: Self,
        path: Vec<u8>,
        content: Vec<u8>,
        existing: Option<Vec<u8>>,
        plan: WritePlan,
    ) -> bool;

    /// How a `remove` call relates the old and new writer state to the
    /// returned plan.
    spec fn remove_spec(
        pre: Self,
        post: Self,
        path: Vec<u8>,
        exists_on_disk: bool,
        plan: RemovePlan,
    ) -> bool;

    /// What `finalize` returns for a given writer state.
    spec fn finalize_spec(&self, report: Option<Vec<u8>>) -> bool;

    /// Requests that `path` end up containing `content` on the real
    /// filesystem. `existing` is the current content of the real file at
    /// `path`, or `None` if it does not exist; a recording writer with
    /// verification off ignores it and the shell need not read the file.
    /// Idempotent towards the filesystem: with identical arguments and the
    /// observation that follows from the first call, the second call's plan
    /// performs no write.
    fn write_if_changed(&mut self, path: Vec<u8>, content: Vec<u8>, existing: Option<Vec<u8>>) -> (plan: WritePlan)
        requires
            old(self).inv(),
            old(self).write_pre(path@, content@),
        ensures
            final(self).inv(),
            Self::write_spec(*old(self), *final(self), path, content, existing, plan),
    ;

    /// Requests that `path` no longer exist on the real filesystem.
    /// `exists_on_disk` says whether the real path exists at call time.
    fn remove(&mut self, path: Vec<u8>, exists_on_disk: bool) -> (plan: RemovePlan)
        requires
            old(self).inv(),
            old(self).remove_pre(path@),
        ensures
            final(self).inv(),
            Self::remove_spec(*old(self), *final(self), path, exists_on_disk, plan),
    ;

    /// Flushes buffered state: returns the rendered report to be written to
    /// the writer's report path, or `None` when the writer buffers nothing.
    /// Safe to call when no write or remove call was made.
    fn finalize(&self) -> (report: Option<Vec<u8>>)
        requires
            self.inv(),
        ensures
            self.finalize_spec(report),
    ;
}

/// The writer that materializes artifacts directly on the filesystem,
/// comparing content first so that a no-op write is skipped.
pub struct ArtifactFileWriter;

impl ArtifactWriter for ArtifactFileWriter {
    open spec fn inv(&self) -> bool {
        true
    }

    open spec fn write_pre(&self, path: Seq<u8>, content: Seq<u8>) -> bool {
        true
    }

    open spec fn remove_pre(&self, path: Seq<u8>) -> bool {
        true
    }

    open spec fn write_spec(
        pre: Self,
        post: Self,
        path: Vec<u8>,
        content: Vec<u8>,
        existing: Option<Vec<u8>>,
        plan: WritePlan,
    ) -> bool {
        plan == direct_write_plan(path, content, existing)
    }

    open spec fn remove_spec(
        pre: Self,
        post: Self,
        path: Vec<u8>,
        exists_on_disk: bool,
        plan: RemovePlan,
    ) -> bool {
        plan == (RemovePlan::Delete { path })
    }

    open spec fn finalize_spec(&self, report: Option<Vec<u8>>) -> bool {
        report is None
    }

    fn write_if_changed(&mut self, path: Vec<u8>, content: Vec<u8>, existing: Option<Vec<u8>>) -> (plan: WritePlan) {
        match existing {
            Option::Some(cur) => {
                if crate::bytes_equal(&cur, &content) {
                    WritePlan::Skip
                } else {
                    WritePlan::Write { path, content, create_parent_dirs: false }
                }
            },
            Option::None => WritePlan::Write { path, content, create_parent_dirs: true },
        }
    }

    /// Deletion is best-effort by design: the plan always asks the shell to
    /// attempt the deletion, and the shell absorbs any failure, so that
    /// removing an already absent path is a success with no effect.
    fn remove(&mut self, path: Vec<u8>, exists_on_disk: bool) -> (plan: RemovePlan) {
        RemovePlan::Delete { path }
    }

    /// Nothing is buffered, so there is nothing to flush.
    fn finalize(&self) -> (report: Option<Vec<u8>>) {
        Option::None
    }
}

/// The writer that records the change-set instead of touching the artifacts,
/// and renders it as a JSON report on finalize.
pub struct ArtifactDifferenceWriter {
    /// The accumulated change-set.
    pub codegen_records: CodegenRecords,
    /// Where the shell is to write the rendered report.
    pub codegen_filepath: Vec<u8>,
    /// When set, a write call whose path already holds identical content on
    /// the real filesystem is dropped instead of recorded.
    pub verify_changes_against_filesystem: bool,
}

impl ArtifactDifferenceWriter {
    /// A recording writer with an empty change-set, reporting to
    /// `codegen_filepath`.
    pub fn new(codegen_filepath: Vec<u8>, verify_changes_against_filesystem: bool) -> (r: ArtifactDifferenceWriter)
        ensures
            r.codegen_records.removed@ =~= Seq::<ArtifactDeletionRecord>::empty(),
            r.codegen_records.changed@ =~= Seq::<ArtifactUpdateRecord>::empty(),
            r.codegen_filepath == codegen_filepath,
            r.verify_changes_against_filesystem == verify_changes_against_filesystem,
            r.inv(),
    {
        ArtifactDifferenceWriter {
            codegen_filepath,
            codegen_records: CodegenRecords::empty(),
            verify_changes_against_filesystem,
        }
    }
}

impl ArtifactWriter for ArtifactDifferenceWriter {
    open spec fn inv(&self) -> bool {
        self.codegen_records.wf()
    }

    open spec fn write_pre(&self, path: Seq<u8>, content: Seq<u8>) -> bool {
        is_utf8(path) && is_utf8(content)
    }

    open spec fn remove_pre(&self, path: Seq<u8>) -> bool {
        is_utf8(path)
    }

    open spec fn write_spec(
        pre: Self,
        post: Self,
        path: Vec<u8>,
        content: Vec<u8>,
        existing: Option<Vec<u8>>,
        plan: WritePlan,
    ) -> bool {
        &&& post.codegen_filepath == pre.codegen_filepath
        &&& post.verify_changes_against_filesystem == pre.verify_changes_against_filesystem
        &&& post.codegen_records.removed == pre.codegen_records.removed
        &&& post.codegen_records.changed@ == if records_update(
            pre.verify_changes_against_filesystem,
            content,
            existing,
        ) {
            pre.codegen_records.changed@.push(ArtifactUpdateRecord { path, data: content })
        } else {
            pre.codegen_records.changed@
        }
        &&& plan == WritePlan::Skip
    }

    open spec fn remove_spec(
        pre: Self,
        post: Self,
        path: Vec<u8>,
        exists_on_disk: bool,
        plan: RemovePlan,
    ) -> bool {
        &&& post.codegen_filepath == pre.codegen_filepath
        &&& post.verify_changes_against_filesystem == pre.verify_changes_against_filesystem
        &&& post.codegen_records.changed == pre.codegen_records.changed
        &&& post.codegen_records.removed@ == if exists_on_disk {
            pre.codegen_records.removed@.push(ArtifactDeletionRecord { path })
        } else {
            pre.codegen_records.removed@
        }
        &&& plan == RemovePlan::Keep
    }

    open spec fn finalize_spec(&self, report: Option<Vec<u8>>) -> bool {
        match report {
            Option::Some(bytes) => bytes@ == report_json(self.codegen_records),
            Option::None => false,
        }
    }

    /// Appends an update record — always when filesystem verification is off,
    /// and otherwise exactly when the observed content differs from the
    /// requested content. The real file is never modified, so the returned
    /// plan is always [`WritePlan::Skip`].
    fn write_if_changed(&mut self, path: Vec<u8>, content: Vec<u8>, existing: Option<Vec<u8>>) -> (plan: WritePlan) {
        let should_include_artifact_in_codegen = if !self.verify_changes_against_filesystem {
            true
        } else {
            match existing {
                Option::Some(cur) => !crate::bytes_equal(&cur, &content),
                Option::None => true,
            }
        };
        if should_include_artifact_in_codegen {
            self.codegen_records.changed.push(ArtifactUpdateRecord { path, data: content });
        }
        WritePlan::Skip
    }

    /// Appends a deletion record exactly when the path exists on the real
    /// filesystem: a report listing deletions of paths that were never there
    /// would mislead whoever reads it.
    fn remove(&mut self, path: Vec<u8>, exists_on_disk: bool) -> (plan: RemovePlan) {
        if exists_on_disk {
            self.codegen_records.removed.push(ArtifactDeletionRecord { path });
        }
        RemovePlan::Keep
    }

    /// Renders the accumulated change-set as the JSON report document, for
    /// the shell to write to [`Self::codegen_filepath`].
    fn finalize(&self) -> (report: Option<Vec<u8>>) {
        Option::Some(render_report(&self.codegen_records))
    }
}

} // verus!
