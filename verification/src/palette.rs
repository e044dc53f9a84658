//! The files that are kept from the decoder, found on their bytes.
//!
//! A PNG file is a signature followed by chunks: four bytes of length, four
//! of type, the data, four of checksum. The first chunk is the header, whose
//! tenth data byte is the colour type. An image of the indexed colour type
//! takes its colours from a palette chunk (`PLTE`) before the image data;
//! the format allows it 256 entries of three bytes each. The decoder expands
//! such an image through a table of 256 entries and does not return where
//! the palette chunk holds more, or no whole number of entries. Such a file
//! is not decoded: the icon loader treats it as undecodable. No other file
//! is kept from the decoder.
//!
//! An icon container (ICO) holds a directory of images, of which the decoder
//! reads one. Where that one is a PNG file, the same holds of it.

use vstd::prelude::*;

verus! {

/// Most bytes the palette chunk of an indexed image may hold: 256 entries
/// of three bytes.
pub const MAX_PALETTE_BYTES: u64 = 768;

/// The colour type of indexed images in a PNG header.
pub const INDEXED_COLOUR: u8 = 3;

/// The value of the four bytes at `at`, most significant first.
pub open spec fn be32_at(bytes: Seq<u8>, at: int) -> nat {
    (bytes[at] * 0x100_0000 + bytes[at + 1] * 0x1_0000 + bytes[at + 2] * 0x100 + bytes[at
        + 3]) as nat
}

/// The value of the four bytes at `at`, least significant first.
pub open spec fn le32_at(bytes: Seq<u8>, at: int) -> nat {
    (bytes[at] + bytes[at + 1] * 0x100 + bytes[at + 2] * 0x1_0000 + bytes[at + 3]
        * 0x100_0000) as nat
}

/// The value of the two bytes at `at`, least significant first.
pub open spec fn le16_at(bytes: Seq<u8>, at: int) -> nat {
    (bytes[at] + bytes[at + 1] * 0x100) as nat
}

/// Whether the eight bytes at `at` are the PNG signature.
pub open spec fn has_png_signature_at(bytes: Seq<u8>, at: int) -> bool {
    &&& 0 <= at
    &&& at + 8 <= bytes.len()
    &&& bytes[at] == 137
    &&& bytes[at + 1] == 80
    &&& bytes[at + 2] == 78
    &&& bytes[at + 3] == 71
    &&& bytes[at + 4] == 13
    &&& bytes[at + 5] == 10
    &&& bytes[at + 6] == 26
    &&& bytes[at + 7] == 10
}

/// Whether the PNG file that starts at `start` announces the indexed colour
/// type. The header chunk follows the signature, so the colour type is the
/// file's byte 25.
pub open spec fn is_indexed_at(bytes: Seq<u8>, start: int) -> bool {
    0 <= start && start + 26 <= bytes.len() && bytes[start + 25] == INDEXED_COLOUR
}

/// Whether the chunk whose header starts at `at` is a palette chunk.
pub open spec fn is_palette_chunk(bytes: Seq<u8>, at: int) -> bool {
    bytes[at + 4] == 80 && bytes[at + 5] == 76 && bytes[at + 6] == 84 && bytes[at + 7] == 69
}

/// Whether the chunk whose header starts at `at` holds image data: `IDAT`,
/// or `fdAT` for a frame of an animation.
pub open spec fn is_data_chunk(bytes: Seq<u8>, at: int) -> bool {
    ||| bytes[at + 4] == 73 && bytes[at + 5] == 68 && bytes[at + 6] == 65 && bytes[at + 7] == 84
    ||| bytes[at + 4] == 102 && bytes[at + 5] == 100 && bytes[at + 6] == 65 && bytes[at + 7]
        == 84
}

/// Whether the chunk whose header starts at `at` is the end chunk (`IEND`).
pub open spec fn is_end_chunk(bytes: Seq<u8>, at: int) -> bool {
    bytes[at + 4] == 73 && bytes[at + 5] == 69 && bytes[at + 6] == 78 && bytes[at + 7] == 68
}

/// Whether a palette chunk may announce `len` bytes of data: whole entries
/// of three bytes, 256 at most.
pub open spec fn palette_length_allowed(len: nat) -> bool {
    len <= MAX_PALETTE_BYTES && len % 3 == 0
}

/// Whether a palette chunk of a forbidden length stands before the image
/// data in the chunk list that starts at `at`. The list is walked by the
/// lengths that the chunk headers announce, checksums unread, up to the
/// first chunk of image data, the end chunk, or the point where no further
/// header fits in the file.
pub open spec fn palette_breach_before_data(bytes: Seq<u8>, at: int) -> bool
    decreases bytes.len() - at,
{
    if at < 0 || at + 8 > bytes.len() {
        false
    } else if is_palette_chunk(bytes, at) {
        !palette_length_allowed(be32_at(bytes, at)) || (at + 12 + be32_at(bytes, at) + 8
            <= bytes.len() && palette_breach_before_data(bytes, at + 12 + be32_at(bytes, at)))
    } else if is_data_chunk(bytes, at) || is_end_chunk(bytes, at) {
        false
    } else if at + 12 + be32_at(bytes, at) + 8 > bytes.len() {
        false
    } else {
        palette_breach_before_data(bytes, at + 12 + be32_at(bytes, at))
    }
}

/// Whether the decoder must not be given the PNG file that starts at
/// `start`: it is an indexed image with a palette chunk of a forbidden
/// length before its image data.
pub open spec fn png_breaks_rule_at(bytes: Seq<u8>, start: int) -> bool {
    &&& has_png_signature_at(bytes, start)
    &&& is_indexed_at(bytes, start)
    &&& palette_breach_before_data(bytes, start + 8)
}

/// Whether `bytes`, read as a PNG file, may be given to the decoder.
pub open spec fn png_keeps_rule(bytes: Seq<u8>) -> bool {
    !png_breaks_rule_at(bytes, 0)
}

/// Whether `bytes` begin as an icon container does.
pub open spec fn is_icon_container(bytes: Seq<u8>) -> bool {
    bytes.len() >= 4 && bytes[0] == 0 && bytes[1] == 0 && bytes[2] == 1 && bytes[3] == 0
}

/// The number of entries that an icon container announces.
pub open spec fn entry_count(bytes: Seq<u8>) -> nat {
    if bytes.len() >= 6 {
        le16_at(bytes, 4)
    } else {
        0
    }
}

/// Where entry `index` stands in the directory of an icon container: the
/// directory follows the six-byte header, sixteen bytes an entry.
pub open spec fn entry_at(index: int) -> int {
    6 + 16 * index
}

/// Whether the whole directory lies within the file.
pub open spec fn directory_fits(bytes: Seq<u8>) -> bool {
    bytes.len() >= 6 && entry_at(entry_count(bytes) as int) <= bytes.len()
}

/// A side of an entry's image as the directory gives it: one byte, in which
/// zero stands for 256.
pub open spec fn entry_side(byte: u8) -> nat {
    if byte == 0 {
        256
    } else {
        byte as nat
    }
}

/// The colour depth that entry `index` announces.
pub open spec fn entry_depth(bytes: Seq<u8>, index: int) -> nat {
    le16_at(bytes, entry_at(index) + 6)
}

/// The number of pixels that entry `index` announces.
pub open spec fn entry_area(bytes: Seq<u8>, index: int) -> nat {
    entry_side(bytes[entry_at(index)]) * entry_side(bytes[entry_at(index) + 1])
}

/// Where the image of entry `index` starts in the file.
pub open spec fn entry_offset(bytes: Seq<u8>, index: int) -> nat {
    le32_at(bytes, entry_at(index) + 12)
}

/// Whether entry `a` outranks entry `b`: by colour depth first, by number of
/// pixels among entries of one depth.
pub open spec fn outranks(bytes: Seq<u8>, a: int, b: int) -> bool {
    entry_depth(bytes, a) > entry_depth(bytes, b) || (entry_depth(bytes, a) == entry_depth(
        bytes,
        b,
    ) && entry_area(bytes, a) > entry_area(bytes, b))
}

/// The entry that is read when the last of `count` entries has been held
/// against the first `seen` ones in turn: the last stays unless an earlier
/// one outranks what is held.
pub open spec fn held_entry(bytes: Seq<u8>, count: int, seen: int) -> int
    decreases seen,
{
    if seen <= 0 {
        count - 1
    } else if outranks(bytes, seen - 1, held_entry(bytes, count, seen - 1)) {
        seen - 1
    } else {
        held_entry(bytes, count, seen - 1)
    }
}

/// The entry of an icon container that the decoder reads.
pub open spec fn selected_entry(bytes: Seq<u8>) -> int {
    held_entry(bytes, entry_count(bytes) as int, entry_count(bytes) - 1)
}

/// Whether `bytes`, read as an icon container, may be given to the decoder:
/// not where the image of the entry that is read is a PNG file that breaks
/// the rule. A container without entries, or with a directory that runs past
/// the end of the file, has no image to read.
pub open spec fn container_keeps_rule(bytes: Seq<u8>) -> bool {
    !(directory_fits(bytes) && entry_count(bytes) > 0 && png_breaks_rule_at(
        bytes,
        entry_offset(bytes, selected_entry(bytes)) as int,
    ))
}

/// Whether `bytes`, read in the format that their first bytes announce, may
/// be given to the decoder.
pub open spec fn sniffed_keeps_rule(bytes: Seq<u8>) -> bool {
    png_keeps_rule(bytes) && (is_icon_container(bytes) ==> container_keeps_rule(bytes))
}

fn read_be32(bytes: &[u8], at: usize) -> (value: u64)
    requires
        at + 4 <= bytes@.len(),
    ensures
        value == be32_at(bytes@, at as int),
        value <= 0xFFFF_FFFF,
{
    (bytes[at] as u64) * 0x100_0000 + (bytes[at + 1] as u64) * 0x1_0000 + (bytes[at + 2] as u64)
        * 0x100 + (bytes[at + 3] as u64)
}

fn read_le32(bytes: &[u8], at: usize) -> (value: u64)
    requires
        at + 4 <= bytes@.len(),
    ensures
        value == le32_at(bytes@, at as int),
        value <= 0xFFFF_FFFF,
{
    (bytes[at] as u64) + (bytes[at + 1] as u64) * 0x100 + (bytes[at + 2] as u64) * 0x1_0000 + (
    bytes[at + 3] as u64) * 0x100_0000
}

fn read_le16(bytes: &[u8], at: usize) -> (value: u32)
    requires
        at + 2 <= bytes@.len(),
    ensures
        value == le16_at(bytes@, at as int),
        value <= 0xFFFF,
{
    (bytes[at] as u32) + (bytes[at + 1] as u32) * 0x100
}

fn side(byte: u8) -> (pixels: u32)
    ensures
        pixels == entry_side(byte),
        1 <= pixels <= 256,
{
    if byte == 0 {
        256
    } else {
        byte as u32
    }
}

/// Walks the chunk list that starts at `start` and tells whether a palette
/// chunk of a forbidden length stands in it before the image data.
pub fn palette_breach(bytes: &[u8], start: usize) -> (found: bool)
    ensures
        found == palette_breach_before_data(bytes@, start as int),
{
    let n = bytes.len();
    let mut at = start;
    loop
        invariant
            n == bytes@.len(),
            palette_breach_before_data(bytes@, start as int) == palette_breach_before_data(
                bytes@,
                at as int,
            ),
        decreases n - at,
    {
        if at > n || n - at < 8 {
            return false;
        }
        let len = read_be32(bytes, at);
        let palette = bytes[at + 4] == 80 && bytes[at + 5] == 76 && bytes[at + 6] == 84 && bytes[at
            + 7] == 69;
        if palette && (len > MAX_PALETTE_BYTES || len % 3 != 0) {
            return true;
        }
        let data = (bytes[at + 4] == 73 && bytes[at + 5] == 68 || bytes[at + 4] == 102 && bytes[at
            + 5] == 100) && bytes[at + 6] == 65 && bytes[at + 7] == 84;
        let end = bytes[at + 4] == 73 && bytes[at + 5] == 69 && bytes[at + 6] == 78 && bytes[at
            + 7] == 68;
        if !palette && (data || end) {
            return false;
        }
        let room = (n - at) as u64;
        if len + 20 > room {
            return false;
        }
        at = at + 12 + len as usize;
    }
}

/// Tells whether the PNG file that starts at `start` must be kept from the
/// decoder.
pub fn png_breaks_rule(bytes: &[u8], start: u64) -> (broken: bool)
    ensures
        broken == png_breaks_rule_at(bytes@, start as int),
{
    let n = bytes.len();
    if n < 26 || start > (n - 26) as u64 {
        return false;
    }
    let i = start as usize;
    let signed = bytes[i] == 137 && bytes[i + 1] == 80 && bytes[i + 2] == 78 && bytes[i + 3] == 71
        && bytes[i + 4] == 13 && bytes[i + 5] == 10 && bytes[i + 6] == 26 && bytes[i + 7] == 10;
    if !signed || bytes[i + 25] != INDEXED_COLOUR {
        return false;
    }
    palette_breach(bytes, i + 8)
}

/// Tells whether the bytes of a PNG file may be given to the decoder.
pub fn png_within_rule(bytes: &[u8]) -> (kept: bool)
    ensures
        kept == png_keeps_rule(bytes@),
{
    !png_breaks_rule(bytes, 0)
}

/// Finds the entry of an icon container that the decoder reads.
fn select_entry(bytes: &[u8]) -> (index: usize)
    requires
        directory_fits(bytes@),
        entry_count(bytes@) > 0,
    ensures
        index == selected_entry(bytes@),
        index < entry_count(bytes@),
{
    let count: usize = read_le16(bytes, 4) as usize;
    let mut best: usize = count - 1;
    let mut seen: usize = 0;
    while seen < count - 1
        invariant
            directory_fits(bytes@),
            count == entry_count(bytes@),
            0 < count <= 0xFFFF,
            seen <= count - 1,
            best < count,
            best == held_entry(bytes@, count as int, seen as int),
        decreases count - 1 - seen,
    {
        let entry = 6 + 16 * seen;
        let held = 6 + 16 * best;
        let depth = read_le16(bytes, entry + 6);
        let held_depth = read_le16(bytes, held + 6);
        let width = side(bytes[entry]);
        let height = side(bytes[entry + 1]);
        let held_width = side(bytes[held]);
        let held_height = side(bytes[held + 1]);
        assert(width * height <= 65536 && held_width * held_height <= 65536) by (nonlinear_arith)
            requires
                width <= 256,
                height <= 256,
                held_width <= 256,
                held_height <= 256,
        ;
        let area = width * height;
        let held_area = held_width * held_height;
        if depth > held_depth || (depth == held_depth && area > held_area) {
            best = seen;
        }
        seen = seen + 1;
    }
    best
}

/// Tells whether the bytes of an icon container may be given to the
/// decoder.
pub fn container_within_rule(bytes: &[u8]) -> (kept: bool)
    ensures
        kept == container_keeps_rule(bytes@),
{
    let n = bytes.len();
    if n < 6 {
        return true;
    }
    let count = read_le16(bytes, 4) as usize;
    if count == 0 || (n - 6) / 16 < count {
        return true;
    }
    let index = select_entry(bytes);
    let offset = read_le32(bytes, 6 + 16 * index + 12);
    !png_breaks_rule(bytes, offset)
}

/// Tells whether bytes in a format that their first bytes announce may be
/// given to the decoder.
pub fn sniffed_within_rule(bytes: &[u8]) -> (kept: bool)
    ensures
        kept == sniffed_keeps_rule(bytes@),
{
    if !png_within_rule(bytes) {
        return false;
    }
    let container = bytes.len() >= 4 && bytes[0] == 0 && bytes[1] == 0 && bytes[2] == 1 && bytes[3]
        == 0;
    if container {
        container_within_rule(bytes)
    } else {
        true
    }
}

/// Only indexed images are ever kept from the decoder: bytes without the
/// signature, and files of any other colour type, keep the rule whatever
/// chunks they hold.
pub proof fn law_only_indexed_images_are_refused(bytes: Seq<u8>)
    ensures
        !has_png_signature_at(bytes, 0) ==> png_keeps_rule(bytes),
        !is_indexed_at(bytes, 0) ==> png_keeps_rule(bytes),
        !has_png_signature_at(bytes, 0) && !is_icon_container(bytes) ==> sniffed_keeps_rule(bytes),
{
}

/// Only what stands before the image data counts: a chunk list that begins
/// with image data or with the end chunk holds no breach, and a palette
/// chunk of a forbidden length at its head is one.
pub proof fn law_breach_lies_before_image_data(bytes: Seq<u8>, at: int)
    requires
        0 <= at,
        at + 8 <= bytes.len(),
    ensures
        !is_palette_chunk(bytes, at) && (is_data_chunk(bytes, at) || is_end_chunk(bytes, at))
            ==> !palette_breach_before_data(bytes, at),
        is_palette_chunk(bytes, at) && !palette_length_allowed(be32_at(bytes, at))
            ==> palette_breach_before_data(bytes, at),
        !palette_breach_before_data(bytes, bytes.len() as int),
{
}

/// The entry that is read is one of the container's: the last one, or one
/// of those held against it.
pub proof fn law_selected_entry_is_an_entry(bytes: Seq<u8>, count: int, seen: int)
    requires
        0 < count,
        0 <= seen < count,
    ensures
        0 <= held_entry(bytes, count, seen) < count,
        held_entry(bytes, count, seen) == count - 1 || held_entry(bytes, count, seen) < seen,
    decreases seen,
{
    if seen > 0 {
        law_selected_entry_is_an_entry(bytes, count, seen - 1);
    }
}

} // verus!
