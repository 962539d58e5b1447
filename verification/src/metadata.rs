//! The `UVCH` metadata header.
//!
//! A capture stream hands over one byte buffer per frame. The buffer holds
//! the leading bytes of the header and may stop anywhere; what it leaves out
//! reads as zero.
//!
//! | bytes    | field               |                         |
//! |----------|---------------------|-------------------------|
//! | `0..8`   | timestamp           | `u64`, little-endian    |
//! | `8..10`  | start of frame      | `u16`, little-endian    |
//! | `10`     | header length       |                         |
//! | `11`     | header info         | flag byte               |
//! | `12..16` | presentation time   | `u32`, little-endian    |
//! | `16..22` | source clock        | six bytes, uninterpreted |

use crate::endian::{
    le_bytes, le_value, lemma_le_bytes_len, lemma_le_bytes_of_value, lemma_le_value_bound,
    lemma_le_value_of_bytes, lemma_pow256_small, read_le, write_le, zero_extended,
};
use crate::flags::HeaderInfo;
use vstd::prelude::*;

verus! {

/// The byte of `bytes` at `at`, or zero where `bytes` has ended.
fn byte_or_zero(bytes: &[u8], at: usize) -> (byte: u8)
    ensures
        byte == if at < bytes@.len() {
            bytes@[at as int]
        } else {
            0u8
        },
{
    if at < bytes.len() {
        bytes[at]
    } else {
        0
    }
}

/// What a header says, field by field.
pub struct MetadataView {
    /// Device timestamp.
    pub timestamp: u64,
    /// Start-of-frame counter.
    pub start_of_frame: u16,
    /// Number of meaningful header bytes, as the device sent it.
    pub header_length: u8,
    /// Header-info flag byte.
    pub header_info: u8,
    /// Presentation time; meaningful only under its flag.
    pub presentation_time: u32,
    /// Source clock reference, six bytes; meaningful only under its flag.
    pub source_clock: Seq<u8>,
}

impl MetadataView {
    /// The source clock has its six bytes.
    pub open spec fn wf(self) -> bool {
        self.source_clock.len() == 6
    }

    /// Every bit of `mask` is set in the header-info byte.
    pub open spec fn flagged(self, mask: u8) -> bool {
        self.header_info & mask == mask
    }

    /// The fields read from the 22-byte image `image`.
    pub open spec fn of_image(image: Seq<u8>) -> MetadataView
        recommends
            image.len() == UvcMetadata::MAX_SIZE,
    {
        MetadataView {
            timestamp: le_value(image.subrange(0, 8)) as u64,
            start_of_frame: le_value(image.subrange(8, 10)) as u16,
            header_length: image[10],
            header_info: image[11],
            presentation_time: le_value(image.subrange(12, 16)) as u32,
            source_clock: image.subrange(16, 22),
        }
    }

    /// The 22 bytes that spell these fields.
    pub open spec fn image(self) -> Seq<u8>
        recommends
            self.wf(),
    {
        le_bytes(self.timestamp as nat, 8) + le_bytes(self.start_of_frame as nat, 2)
            + seq![self.header_length, self.header_info] + le_bytes(
            self.presentation_time as nat,
            4,
        ) + self.source_clock
    }

    /// An image is as long as the header can be.
    pub proof fn lemma_image_len(self)
        requires
            self.wf(),
        ensures
            self.image().len() == UvcMetadata::MAX_SIZE,
    {
        lemma_le_bytes_len(self.timestamp as nat, 8);
        lemma_le_bytes_len(self.start_of_frame as nat, 2);
        lemma_le_bytes_len(self.presentation_time as nat, 4);
    }

    /// Reading fields from an image and spelling them out again gives the
    /// image.
    pub proof fn lemma_image_of_fields(image: Seq<u8>)
        requires
            image.len() == UvcMetadata::MAX_SIZE,
        ensures
            MetadataView::of_image(image).wf(),
            MetadataView::of_image(image).image() == image,
    {
        let timestamp = image.subrange(0, 8);
        let start_of_frame = image.subrange(8, 10);
        let presentation_time = image.subrange(12, 16);
        lemma_le_value_bound(timestamp);
        lemma_le_value_bound(start_of_frame);
        lemma_le_value_bound(presentation_time);
        lemma_pow256_small(8);
        lemma_pow256_small(2);
        lemma_pow256_small(4);
        lemma_le_bytes_of_value(timestamp);
        lemma_le_bytes_of_value(start_of_frame);
        lemma_le_bytes_of_value(presentation_time);
        assert(MetadataView::of_image(image).image() =~= image);
    }

    /// Spelling fields out and reading them back gives the fields.
    pub proof fn lemma_fields_of_image(self)
        requires
            self.wf(),
        ensures
            MetadataView::of_image(self.image()) == self,
    {
        let image = self.image();
        lemma_le_bytes_len(self.timestamp as nat, 8);
        lemma_le_bytes_len(self.start_of_frame as nat, 2);
        lemma_le_bytes_len(self.presentation_time as nat, 4);
        lemma_pow256_small(8);
        lemma_pow256_small(2);
        lemma_pow256_small(4);
        lemma_le_value_of_bytes(self.timestamp as nat, 8);
        lemma_le_value_of_bytes(self.start_of_frame as nat, 2);
        lemma_le_value_of_bytes(self.presentation_time as nat, 4);
        assert(image.subrange(0, 8) =~= le_bytes(self.timestamp as nat, 8));
        assert(image.subrange(8, 10) =~= le_bytes(self.start_of_frame as nat, 2));
        assert(image.subrange(12, 16) =~= le_bytes(self.presentation_time as nat, 4));
        assert(image.subrange(16, 22) =~= self.source_clock);
        assert(image[10] == self.header_length);
        assert(image[11] == self.header_info);
    }
}

/// One decoded metadata header: a snapshot of the bytes it was made from.
#[derive(Clone, Copy, Debug, PartialEq, Eq)]
pub struct UvcMetadata {
    ts: u64,
    sof: u16,
    header_length: u8,
    header_info: HeaderInfo,
    presentation_time: u32,
    source_clock: [u8; 6],
}

impl View for UvcMetadata {
    type V = MetadataView;

    closed spec fn view(&self) -> MetadataView {
        MetadataView {
            timestamp: self.ts,
            start_of_frame: self.sof,
            header_length: self.header_length,
            header_info: self.header_info.bits(),
            presentation_time: self.presentation_time,
            source_clock: self.source_clock@,
        }
    }
}

impl UvcMetadata {
    /// The most bytes a header can have on the wire.
    pub const MAX_SIZE: usize = 22;

    /// The header that `bytes` decodes to: the fields of `bytes` extended
    /// with zeros to full size.
    pub open spec fn decoded(bytes: Seq<u8>) -> MetadataView
        recommends
            bytes.len() <= UvcMetadata::MAX_SIZE,
    {
        MetadataView::of_image(zero_extended(bytes, UvcMetadata::MAX_SIZE as nat))
    }

    /// Decodes the header at the start of a metadata buffer.
    ///
    /// The buffer may hold fewer bytes than a full header; the fields it does
    /// not reach are zero. The embedded header length is not held against the
    /// length of the buffer.
    pub fn from_bytes(bytes: &[u8]) -> (meta: UvcMetadata)
        requires
            bytes@.len() <= UvcMetadata::MAX_SIZE,
        ensures
            meta@ == UvcMetadata::decoded(bytes@),
            meta@.wf(),
            meta@.image().len() == UvcMetadata::MAX_SIZE,
            meta@.image().take(bytes@.len() as int) == bytes@,
            forall|i: int| bytes@.len() <= i < UvcMetadata::MAX_SIZE ==> meta@.image()[i] == 0,
    {
        let ghost image = zero_extended(bytes@, 22);
        proof {
            assert(zero_extended(bytes@, 8).subrange(0, 8) =~= image.subrange(0, 8));
            assert(zero_extended(bytes@, 10).subrange(8, 10) =~= image.subrange(8, 10));
            assert(zero_extended(bytes@, 16).subrange(12, 16) =~= image.subrange(12, 16));
            lemma_le_value_bound(image.subrange(0, 8));
            lemma_le_value_bound(image.subrange(8, 10));
            lemma_le_value_bound(image.subrange(12, 16));
            lemma_pow256_small(8);
            lemma_pow256_small(2);
            lemma_pow256_small(4);
        }
        let ts = read_le(bytes, 0, 8);
        let sof = read_le(bytes, 8, 2);
        let header_length = byte_or_zero(bytes, 10);
        let header_info = HeaderInfo::from_bits_unchecked(byte_or_zero(bytes, 11));
        let presentation_time = read_le(bytes, 12, 4);
        let source_clock = [
            byte_or_zero(bytes, 16),
            byte_or_zero(bytes, 17),
            byte_or_zero(bytes, 18),
            byte_or_zero(bytes, 19),
            byte_or_zero(bytes, 20),
            byte_or_zero(bytes, 21),
        ];
        assert(source_clock@ =~= image.subrange(16, 22));
        let meta = UvcMetadata {
            ts,
            sof: sof as u16,
            header_length,
            header_info,
            presentation_time: presentation_time as u32,
            source_clock,
        };
        proof {
            MetadataView::lemma_image_of_fields(image);
            assert(image.take(bytes@.len() as int) =~= bytes@);
        }
        meta
    }

    /// Decodes a metadata buffer of any length: `None` when it is longer
    /// than a header can be, and nothing is decoded then.
    pub fn try_from_bytes(bytes: &[u8]) -> (meta: Option<UvcMetadata>)
        ensures
            meta is Some <==> bytes@.len() <= UvcMetadata::MAX_SIZE,
            meta matches Some(m) ==> m@ == UvcMetadata::decoded(bytes@),
    {
        if bytes.len() <= Self::MAX_SIZE {
            Some(UvcMetadata::from_bytes(bytes))
        } else {
            None
        }
    }

    /// The header as it stands on the wire, at full size.
    pub fn to_bytes(&self) -> (image: [u8; 22])
        ensures
            image@ == self@.image(),
            self@.wf(),
    {
        let mut image = [0u8;22];
        write_le(&mut image, 0, 8, self.ts);
        write_le(&mut image, 8, 2, self.sof as u64);
        image[10] = self.header_length;
        image[11] = self.header_info.bits();
        write_le(&mut image, 12, 4, self.presentation_time as u64);
        image[16] = self.source_clock[0];
        image[17] = self.source_clock[1];
        image[18] = self.source_clock[2];
        image[19] = self.source_clock[3];
        image[20] = self.source_clock[4];
        image[21] = self.source_clock[5];
        proof {
            lemma_le_bytes_len(self.ts as nat, 8);
            lemma_le_bytes_len(self.sof as nat, 2);
            lemma_le_bytes_len(self.presentation_time as nat, 4);
            assert(image@ =~= self@.image());
        }
        image
    }

    /// Device timestamp.
    pub fn timestamp(&self) -> (timestamp: u64)
        ensures
            timestamp == self@.timestamp,
    {
        self.ts
    }

    /// Start-of-frame counter.
    pub fn start_of_frame(&self) -> (counter: u16)
        ensures
            counter == self@.start_of_frame,
    {
        self.sof
    }

    /// Number of meaningful header bytes, as the device sent it.
    pub fn header_length(&self) -> (length: u8)
        ensures
            length == self@.header_length,
    {
        self.header_length
    }

    /// Header-info flags.
    pub fn header_info(&self) -> (flags: HeaderInfo)
        ensures
            flags.bits() == self@.header_info,
    {
        self.header_info
    }

    /// Presentation time, when the header flags one.
    ///
    /// Without the flag the bytes at its place mean nothing, whatever they
    /// hold, and `None` is returned.
    pub fn presentation_time(&self) -> (time: Option<u32>)
        ensures
            time == if self@.flagged(HeaderInfo::PRESENTATION_TIME) {
                Some(self@.presentation_time)
            } else {
                None
            },
    {
        if self.header_info.contains(HeaderInfo::PRESENTATION_TIME) {
            Some(self.presentation_time)
        } else {
            None
        }
    }

    /// Source clock reference, when the header flags one.
    ///
    /// Without the flag the bytes at its place mean nothing, whatever they
    /// hold, and `None` is returned.
    pub fn source_clock(&self) -> (clock: Option<[u8; 6]>)
        ensures
            clock is Some <==> self@.flagged(HeaderInfo::SOURCE_CLOCK_REFERENCE),
            clock matches Some(c) ==> c@ == self@.source_clock,
    {
        if self.header_info.contains(HeaderInfo::SOURCE_CLOCK_REFERENCE) {
            Some(self.source_clock)
        } else {
            None
        }
    }

    /// A header is what its fields say: two headers with the same fields are
    /// the same header.
    pub proof fn lemma_view_determines(a: UvcMetadata, b: UvcMetadata)
        requires
            a@ == b@,
        ensures
            a == b,
    {
        HeaderInfo::lemma_bits_determine(a.header_info, b.header_info);
        assert(a.source_clock =~= b.source_clock);
    }

    /// Decoding is a function of the bytes alone: whatever `from_bytes`
    /// returns for one buffer, it returns for every buffer with those bytes.
    pub proof fn lemma_decode_deterministic(
        first: Seq<u8>,
        second: Seq<u8>,
        a: UvcMetadata,
        b: UvcMetadata,
    )
        requires
            first == second,
            a@ == UvcMetadata::decoded(first),
            b@ == UvcMetadata::decoded(second),
        ensures
            a == b,
    {
        UvcMetadata::lemma_view_determines(a, b);
    }

    /// A decoded buffer can be read off the image again: the image starts
    /// with the buffer and is zero from there on.
    pub proof fn lemma_image_of_decoded(bytes: Seq<u8>)
        requires
            bytes.len() <= UvcMetadata::MAX_SIZE,
        ensures
            UvcMetadata::decoded(bytes).wf(),
            UvcMetadata::decoded(bytes).image() == zero_extended(
                bytes,
                UvcMetadata::MAX_SIZE as nat,
            ),
            UvcMetadata::decoded(bytes).image().take(bytes.len() as int) == bytes,
            forall|i: int|
                bytes.len() <= i < UvcMetadata::MAX_SIZE ==> UvcMetadata::decoded(bytes).image()[i]
                    == 0,
    {
        let image = zero_extended(bytes, UvcMetadata::MAX_SIZE as nat);
        MetadataView::lemma_image_of_fields(image);
        assert(image.take(bytes.len() as int) =~= bytes);
    }
}

} // verus!
