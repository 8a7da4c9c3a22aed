//! The selection range: the optional half-open time interval the user
//! marks on the timeline for export.
//!
//! The core clamps and stores the two endpoints; the trimming itself is
//! the export collaborator's work. Either endpoint may be set on its own:
//! a missing start stands for the beginning of the media, a missing end
//! for its duration, and the range only resolves to an interval while it
//! is non-empty.

use vstd::prelude::*;

verus! {

/// The optional endpoints of the selection, in microseconds of media
/// time, each clamped into `[0, duration]` when set.
pub struct SelectionRange {
    pub start_us: Option<u64>,
    pub end_us: Option<u64>,
}

/// A time clamped into `[0, duration]`.
pub open spec fn spec_clamp_us(time_us: i64, duration_us: u64) -> u64 {
    if time_us < 0 {
        0u64
    } else if time_us > duration_us {
        duration_us
    } else {
        time_us as u64
    }
}

impl SelectionRange {
    /// Both endpoints stay within the media.
    pub open spec fn within(self, duration_us: u64) -> bool {
        &&& match self.start_us {
            Some(s) => s <= duration_us,
            None => true,
        }
        &&& match self.end_us {
            Some(e) => e <= duration_us,
            None => true,
        }
    }

    /// The half-open interval the selection stands for against the given
    /// duration: a missing start is the beginning, a missing end the
    /// duration, and an empty or inverted selection is no interval.
    pub open spec fn spec_resolved(self, duration_us: u64) -> Option<(u64, u64)> {
        if self.start_us is None && self.end_us is None {
            None
        } else {
            let s = match self.start_us {
                Some(s) => s,
                None => 0u64,
            };
            let e = match self.end_us {
                Some(e) => e,
                None => duration_us,
            };
            if s < e {
                Some((s, e))
            } else {
                None
            }
        }
    }

    /// No selection.
    pub fn new() -> (r: SelectionRange)
        ensures
            r.start_us is None,
            r.end_us is None,
            forall|d: u64| r.within(d),
            forall|d: u64| r.spec_resolved(d) is None,
    {
        SelectionRange { start_us: None, end_us: None }
    }

    /// Marks the selection's start, clamped into the media's duration;
    /// the end is untouched.
    pub fn set_start(&mut self, time_us: i64, duration_us: u64)
        requires
            old(self).within(duration_us),
        ensures
            final(self).within(duration_us),
            final(self).start_us == Some(spec_clamp_us(time_us, duration_us)),
            final(self).end_us == old(self).end_us,
    {
        self.start_us = Some(clamp_us(time_us, duration_us));
    }

    /// Marks the selection's end, clamped into the media's duration; the
    /// start is untouched.
    pub fn set_end(&mut self, time_us: i64, duration_us: u64)
        requires
            old(self).within(duration_us),
        ensures
            final(self).within(duration_us),
            final(self).end_us == Some(spec_clamp_us(time_us, duration_us)),
            final(self).start_us == old(self).start_us,
    {
        self.end_us = Some(clamp_us(time_us, duration_us));
    }

    /// Drops the selection.
    pub fn clear(&mut self)
        ensures
            final(self).start_us is None,
            final(self).end_us is None,
    {
        self.start_us = None;
        self.end_us = None;
    }

    /// The half-open interval `[start, end)` the selection stands for,
    /// or `None` while nothing is selected or the selection is empty.
    pub fn resolved(&self, duration_us: u64) -> (r: Option<(u64, u64)>)
        requires
            self.within(duration_us),
        ensures
            r == self.spec_resolved(duration_us),
            r is Some ==> (r->0).0 < (r->0).1 <= duration_us,
    {
        if self.start_us.is_none() && self.end_us.is_none() {
            return None;
        }
        let s = match self.start_us {
            Some(s) => s,
            None => 0,
        };
        let e = match self.end_us {
            Some(e) => e,
            None => duration_us,
        };
        if s < e {
            Some((s, e))
        } else {
            None
        }
    }
}

/// Clamps a time into `[0, duration]` on machine integers.
pub fn clamp_us(time_us: i64, duration_us: u64) -> (r: u64)
    ensures
        r == spec_clamp_us(time_us, duration_us),
        r <= duration_us,
{
    if time_us < 0 {
        0
    } else {
        let t = time_us as u64;
        if t > duration_us {
            duration_us
        } else {
            t
        }
    }
}

/// A resolved selection is always a well-formed half-open interval of
/// the media: strictly increasing and bounded by the duration.
pub proof fn lemma_resolved_is_within_media(sel: SelectionRange, duration_us: u64)
    requires
        sel.within(duration_us),
        sel.spec_resolved(duration_us) is Some,
    ensures
        (sel.spec_resolved(duration_us)->0).0 < (sel.spec_resolved(duration_us)->0).1
            <= duration_us,
{
}

} // verus!
