//! File system dependencies.

use vstd::prelude::*;
use crate::dep::ProbeSample;
use crate::loc::Location;

verus! {

/// A file system entry the process depends on. The probe polls the
/// path's existence until it appears or the deadline passes.
pub struct FsEntry<Loc> {
    /// A tag used as an identificator of the FS entry in the output.
    pub tag: String,
    /// The location of the FS entry.
    pub addr: Loc,
    /// FS entry wait timeout, in milliseconds.
    pub timeout_ms: u64,
}

impl<Loc> FsEntry<Loc> where Loc: Location {
    /// Constructs a new FsEntry.
    pub fn new(tag: String, addr: Loc, timeout_ms: u64) -> (r: Self)
        ensures
            r.tag == tag,
            r.addr == addr,
            r.timeout_ms == timeout_ms,
    {
        FsEntry { tag, addr, timeout_ms }
    }

    /// What one existence poll means to the wait protocol: a present
    /// path is success, an absent one is polled again. A file system
    /// entry is never rejected; its wait can only succeed or time
    /// out.
    pub fn classify(exists: bool) -> (s: ProbeSample)
        ensures
            s == (if exists {
                ProbeSample::Ready
            } else {
                ProbeSample::NotReady
            }),
    {
        if exists {
            ProbeSample::Ready
        } else {
            ProbeSample::NotReady
        }
    }
}

} // verus!
