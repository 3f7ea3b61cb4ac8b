//! The set of event categories that the handler captures, as a bit mask over
//! the host's event taxonomy.

use vstd::prelude::*;

verus! {

/// Every bit that names a known event category of the Janus gateway's
/// `JanusEventType`: session (bit 0), handle (1), jsep (3), webrtc (4),
/// media (5), plugin (6), transport (7) and core (8). Bit 2 is unused.
pub const ALL_EVENT_BITS: u32 = 0x1fb;

/// A set of event categories. It never holds a bit outside the known ones.
#[derive(Clone, Copy, Debug, PartialEq, Eq)]
pub struct EventMask {
    bits: u32,
}

impl View for EventMask {
    type V = u32;

    closed spec fn view(&self) -> u32 {
        self.bits
    }
}

impl EventMask {
    #[verifier::type_invariant]
    spec fn only_known_bits(self) -> bool {
        self.bits & !ALL_EVENT_BITS == 0
    }

    /// The mask of the known categories among the bits of `raw`; the other
    /// bits are dropped.
    pub fn from_bits_truncate(raw: u32) -> (r: EventMask)
        ensures
            r@ == raw & ALL_EVENT_BITS,
    {
        let bits = raw & ALL_EVENT_BITS;
        assert(bits & !ALL_EVENT_BITS == 0) by (bit_vector)
            requires
                bits == raw & ALL_EVENT_BITS,
        ;
        EventMask { bits }
    }

    /// The mask of every known category.
    pub fn all() -> (r: EventMask)
        ensures
            r@ == ALL_EVENT_BITS,
    {
        let bits = ALL_EVENT_BITS;
        assert(bits & !ALL_EVENT_BITS == 0) by (bit_vector)
            requires
                bits == ALL_EVENT_BITS,
        ;
        EventMask { bits }
    }

    /// The raw bits of the mask.
    pub fn bits(&self) -> (r: u32)
        ensures
            r == self@,
            r & !ALL_EVENT_BITS == 0,
    {
        proof {
            use_type_invariant(self);
        }
        self.bits
    }

    /// Whether every category of `other` is in this mask.
    pub fn contains(&self, other: EventMask) -> (r: bool)
        ensures
            r == (self@ & other@ == other@),
    {
        self.bits & other.bits == other.bits
    }

    /// Whether the mask holds no category.
    pub fn is_empty(&self) -> (r: bool)
        ensures
            r == (self@ == 0),
    {
        self.bits == 0
    }
}

} // verus!
