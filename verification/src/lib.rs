//! An artifact-persistence layer for a code generator: writers that materialize
//! generated files either directly to the filesystem (skipping no-op writes) or
//! into an in-memory change-set that is serialized as a single JSON report.
//!
//! The writers themselves are pure decision layers: they are handed the current
//! filesystem observation for a path and return a plan describing what must be
//! done to the real filesystem, so that every decision is verified while the
//! actual I/O stays in a thin unverified shell around this crate.

use vstd::prelude::*;

pub mod json;
pub mod laws;
pub mod records;
pub mod utf8;
pub mod writer;

verus! {

/// Compares two byte vectors for equality of their contents.
pub fn bytes_equal(a: &Vec<u8>, b: &Vec<u8>) -> (r: bool)
    ensures
        r == (a@ == b@),
{
    if a.len() != b.len() {
        return false;
    }
    let mut i: usize = 0;
    while i < a.len()
        invariant
            i <= a.len(),
            a@.len() == b@.len(),
            forall|j: int| 0 <= j < i ==> a@[j] == b@[j],
        decreases a.len() - i,
    {
        if a[i] != b[i] {
            return false;
        }
        i += 1;
    }
    proof {
        assert(a@ =~= b@);
    }
    true
}

} // verus!
