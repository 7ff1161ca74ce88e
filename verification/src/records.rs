//! The change-set a recording writer accumulates: an append-only log of the
//! update and deletion calls made during one generation session.
//!
//! A path may appear several times across the log; no deduplication or
//! merge-by-path is performed. The log records calls, not a reconciled final
//! state. Paths and content are byte strings; the report format emits both as
//! literal JSON text, so records are well formed only when they hold valid
//! UTF-8 (see [`crate::utf8::is_utf8`]).

use vstd::prelude::*;
use crate::utf8::is_utf8;

verus! {

/// One recorded update: the artifact at `path` was created or its content
/// changed to `data`.
pub struct ArtifactUpdateRecord {
    pub path: Vec<u8>,
    pub data: Vec<u8>,
}

/// One recorded deletion: the artifact at `path` existed and should be removed.
pub struct ArtifactDeletionRecord {
    pub path: Vec<u8>,
}

/// The full change-set of one session: every deletion and every update, in the
/// order the calls appended them.
pub struct CodegenRecords {
    pub removed: Vec<ArtifactDeletionRecord>,
    pub changed: Vec<ArtifactUpdateRecord>,
}

impl ArtifactUpdateRecord {
    /// Both fields hold valid UTF-8, so the record can be emitted as JSON text.
    pub open spec fn wf(&self) -> bool {
        is_utf8(self.path@) && is_utf8(self.data@)
    }
}

impl ArtifactDeletionRecord {
    /// The path holds valid UTF-8, so the record can be emitted as JSON text.
    pub open spec fn wf(&self) -> bool {
        is_utf8(self.path@)
    }
}

impl CodegenRecords {
    /// Every record of the change-set is well formed.
    pub open spec fn wf(&self) -> bool {
        &&& forall|i: int| 0 <= i < self.removed@.len() ==> (#[trigger] self.removed@[i]).wf()
        &&& forall|i: int| 0 <= i < self.changed@.len() ==> (#[trigger] self.changed@[i]).wf()
    }

    /// An empty change-set: no calls recorded yet.
    pub fn empty() -> (r: CodegenRecords)
        ensures
            r.removed@ =~= Seq::<ArtifactDeletionRecord>::empty(),
            r.changed@ =~= Seq::<ArtifactUpdateRecord>::empty(),
            r.wf(),
    {
        CodegenRecords { removed: Vec::new(), changed: Vec::new() }
    }
}

} // verus!
