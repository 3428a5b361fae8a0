//! The diagnostic trace-tag sequencer: a 4-bit counter carried by every
//! emitted message.  Tag 0 means tracing is off and is sticky; a live tag
//! cycles through 1..=15, wrapping from 15 back to 1, never back to 0.

use vstd::prelude::*;

verus! {

/// The tag that follows `t` in the trace sequence: 0 stays 0 (tracing
/// off is a terminal state), 15 wraps to 1, anything else increments.
pub open spec fn next_tag(t: u8) -> u8 {
    if t == 0 {
        0
    } else if t >= 15 {
        1
    } else {
        (t + 1) as u8
    }
}

/// Owns the trace-tag counter.  Only `advance` ever changes it.
pub struct TraceTagSequencer {
    tag: u8,
}

impl TraceTagSequencer {
    /// The stored tag.
    pub closed spec fn spec_tag(&self) -> u8 {
        self.tag
    }

    /// The tag is a 4-bit value.
    pub open spec fn wf(&self) -> bool {
        self.spec_tag() <= 15
    }

    pub fn new(tag: u8) -> (r: Self)
        requires
            tag <= 15,
        ensures
            r.wf(),
            r.spec_tag() == tag,
    {
        TraceTagSequencer { tag }
    }

    /// The tag the next emitted message will carry.
    pub fn current(&self) -> (r: u8)
        ensures
            r == self.spec_tag(),
    {
        self.tag
    }

    /// Advances the tag by the wrap rule and reports the new value.
    /// A disabled sequencer (tag 0) stays disabled.
    pub fn advance(&mut self) -> (r: u8)
        requires
            old(self).wf(),
        ensures
            final(self).wf(),
            final(self).spec_tag() == next_tag(old(self).spec_tag()),
            r == final(self).spec_tag(),
    {
        if self.tag == 0 {
            0
        } else {
            if self.tag >= 15 {
                self.tag = 1;
            } else {
                self.tag = self.tag + 1;
            }
            self.tag
        }
    }
}

/// Law: for every 4-bit tag, advancing maps 15 to 1, any live tag below
/// 15 to its successor, and leaves the disabled tag 0 in place; a live
/// tag never becomes 0 again.
pub proof fn lemma_tag_advance(t: u8)
    requires
        t <= 15,
    ensures
        t == 0 ==> next_tag(t) == 0,
        t == 15 ==> next_tag(t) == 1,
        1 <= t < 15 ==> next_tag(t) == t + 1,
        next_tag(t) <= 15,
        t > 0 ==> 1 <= next_tag(t),
{
}

} // verus!
