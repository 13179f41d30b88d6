//! The durable progress marker: the last block height whose records were
//! committed for a named pipeline, and the rules that read and advance it.
use vstd::prelude::*;

verus! {

/// Height at which a run starts, given the stored marker: 0 where there is
/// none, else the height after the marked one (`None` past the largest `u64`).
pub open spec fn spec_start_height(marker: Option<u64>) -> Option<u64> {
    match marker {
        None => Some(0),
        Some(h) => if h < u64::MAX { Some((h + 1) as u64) } else { None },
    }
}

/// The marker once the commit of `height` is over: the height where the
/// records were stored, the marker as it was where the write failed.
pub open spec fn spec_marker_after_commit(marker: Option<u64>, height: u64, stored: bool) -> Option<u64> {
    if stored { Some(height) } else { marker }
}

/// The height at which a run resumes after reading `marker` from the store.
pub fn get_start_height(marker: Option<u64>) -> (r: Option<u64>)
    ensures
        r == spec_start_height(marker),
{
    match marker {
        None => Some(0),
        Some(h) => if h < u64::MAX { Some(h + 1) } else { None },
    }
}

/// Settles the marker after the record write of one block: it advances to
/// `height` only where the write reported success, and is left as it was
/// where the write failed, so that the block is processed again on restart.
pub fn settle_commit(marker: &mut Option<u64>, height: u64, stored: bool)
    ensures
        *final(marker) == spec_marker_after_commit(*old(marker), height, stored),
{
    if stored {
        *marker = Some(height);
    }
}

/// After the commit of `height` has stored its records, a fresh run on the
/// same pipeline starts at the next height.
pub proof fn lemma_resume_after_commit(marker: Option<u64>, height: u64)
    requires
        height < u64::MAX,
    ensures
        spec_start_height(spec_marker_after_commit(marker, height, true)) == Some((height + 1) as u64),
{
}

/// A commit whose record write failed leaves the marker, and so the height at
/// which the next run starts, as they were before the block.
pub proof fn lemma_failed_commit_keeps_marker(marker: Option<u64>, height: u64)
    ensures
        spec_marker_after_commit(marker, height, false) == marker,
        spec_start_height(spec_marker_after_commit(marker, height, false)) == spec_start_height(marker),
{
}

} // verus!
