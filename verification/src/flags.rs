//! Bit-flag bytes of the protocol.
//!
//! A flag byte is kept as it came off the wire. Masks are plain `u8`
//! constants, so several can be joined with `|` before they are tested.

use vstd::prelude::*;

verus! {

/// Bits are tested one by one: a byte has every bit of two masks joined
/// exactly when it has every bit of each.
pub proof fn lemma_joined_masks(bits: u8, first: u8, second: u8)
    ensures
        (bits & (first | second) == first | second) <==> (bits & first == first && bits & second
            == second),
{
    assert((bits & (first | second) == first | second) <==> (bits & first == first && bits & second
        == second)) by (bit_vector);
}

/// The header-info byte of a payload header: eight independent booleans.
///
/// Every bit of the byte has a meaning, so every byte is a valid value.
#[derive(Clone, Copy, Debug, PartialEq, Eq, Structural)]
pub struct HeaderInfo {
    bits: u8,
}

impl HeaderInfo {
    /// Toggles with every new frame.
    pub const FRAME_ID: u8 = 0x01;

    /// The payload ends a frame.
    pub const END_OF_FRAME: u8 = 0x02;

    /// The header carries a presentation time.
    pub const PRESENTATION_TIME: u8 = 0x04;

    /// The header carries a source clock reference.
    pub const SOURCE_CLOCK_REFERENCE: u8 = 0x08;

    /// A bit whose meaning the payload format defines.
    pub const PAYLOAD: u8 = 0x10;

    /// The payload belongs to a still image.
    pub const STILL_IMAGE: u8 = 0x20;

    /// The device met an error while it streamed this payload.
    pub const ERROR: u8 = 0x40;

    /// This is the last header group of the packet.
    pub const END_OF_HEADER: u8 = 0x80;

    /// The byte behind the flags.
    pub closed spec fn spec_bits(&self) -> u8 {
        self.bits
    }

    /// True when every bit of `mask` is set.
    pub open spec fn spec_contains(&self, mask: u8) -> bool {
        self.bits() & mask == mask
    }

    /// Takes a byte as flags, keeping every bit.
    pub fn from_bits_unchecked(bits: u8) -> (flags: HeaderInfo)
        ensures
            flags.bits() == bits,
    {
        HeaderInfo { bits }
    }

    /// The byte behind the flags.
    #[verifier::when_used_as_spec(spec_bits)]
    pub fn bits(&self) -> (bits: u8)
        ensures
            bits == self.bits(),
    {
        self.bits
    }

    /// True when every bit of `mask` is set.
    #[verifier::when_used_as_spec(spec_contains)]
    pub fn contains(&self, mask: u8) -> (all: bool)
        ensures
            all == self.contains(mask),
    {
        self.bits & mask == mask
    }

    /// Flags are their byte: two values with the same byte are the same
    /// value.
    pub proof fn lemma_bits_determine(a: HeaderInfo, b: HeaderInfo)
        requires
            a.bits() == b.bits(),
        ensures
            a == b,
    {
    }
}

/// What a `GET_INFO` query reports about one control: a byte of capability
/// bits.
///
/// The byte is kept whole. Which bit means what is laid down by the USB
/// Video Class standard and by the vendor of the unit, not here.
#[derive(Clone, Copy, Debug, PartialEq, Eq, Structural)]
pub struct ControlInfo {
    bits: u8,
}

impl ControlInfo {
    /// The byte as the device reported it.
    pub closed spec fn spec_bits(&self) -> u8 {
        self.bits
    }

    /// True when every bit of `mask` is set.
    pub open spec fn spec_contains(&self, mask: u8) -> bool {
        self.bits() & mask == mask
    }

    /// Takes a byte as capability bits, keeping every bit.
    pub fn from_bits_unchecked(bits: u8) -> (info: ControlInfo)
        ensures
            info.bits() == bits,
    {
        ControlInfo { bits }
    }

    /// The byte as the device reported it.
    #[verifier::when_used_as_spec(spec_bits)]
    pub fn bits(&self) -> (bits: u8)
        ensures
            bits == self.bits(),
    {
        self.bits
    }

    /// True when every bit of `mask` is set.
    #[verifier::when_used_as_spec(spec_contains)]
    pub fn contains(&self, mask: u8) -> (all: bool)
        ensures
            all == self.contains(mask),
    {
        self.bits & mask == mask
    }

    /// Capability bits are their byte: two values with the same byte are
    /// the same value.
    pub proof fn lemma_bits_determine(a: ControlInfo, b: ControlInfo)
        requires
            a.bits() == b.bits(),
        ensures
            a == b,
    {
    }
}

} // verus!
