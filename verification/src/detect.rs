//! The change detector: tracks the pasteboard's revision counter and reports
//! whether the content changed since the last check. The counter lives in an
//! explicit field, mutated only here, so detection is monotone-counter-based
//! and idempotent on repeated polls of the same revision.

use vstd::prelude::*;

use crate::pasteboard::Pasteboard;

verus! {

/// One detection step: whether a check against revision `rev` reports a
/// change from the stored value `last`, and the value stored afterwards.
pub open spec fn detector_step(last: i64, rev: i64) -> (bool, i64) {
    (last != rev, rev)
}

/// Tracks the last-observed revision counter, starting at zero as at process
/// start.
pub struct ChangeDetector {
    last: i64,
}

impl ChangeDetector {
    /// The revision counter observed by the most recent check.
    pub closed spec fn last_seen(self) -> i64 {
        self.last
    }

    /// A fresh detector, with no revision observed yet.
    pub fn new() -> (r: ChangeDetector)
        ensures
            r.last_seen() == 0,
    {
        ChangeDetector { last: 0 }
    }

    /// Reads the snapshot's revision counter, reports whether it differs
    /// from the last-observed value, and stores it. False positives are
    /// possible when the platform bumps the counter without a content
    /// change; they are accepted, not filtered.
    pub fn has_changed(&mut self, pb: &Pasteboard) -> (r: bool)
        ensures
            r == detector_step(old(self).last_seen(), pb.revision()).0,
            final(self).last_seen() == detector_step(old(self).last_seen(), pb.revision()).1,
    {
        let current = pb.current_revision_counter();
        if self.last != current {
            self.last = current;
            true
        } else {
            false
        }
    }
}

/// With no intervening revision change, a second check reports nothing: one
/// detection consumes the change, and repeated polling of the same revision
/// stays quiet.
pub proof fn lemma_detection_idempotent(last: i64, rev: i64)
    ensures
        !detector_step(detector_step(last, rev).1, rev).0,
{
}

/// After the revision counter moves, the change is reported exactly once:
/// the first check after the move reports it, and every later check reports
/// nothing until the counter moves again.
pub proof fn lemma_change_reported_once(last: i64, rev: i64)
    requires
        rev != last,
    ensures
        detector_step(last, rev).0,
        !detector_step(detector_step(last, rev).1, rev).0,
        detector_step(last, rev).1 == rev,
{
}

} // verus!
