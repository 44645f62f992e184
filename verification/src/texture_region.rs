//! Decoding the PNG image of a texture region.

use vstd::prelude::*;

verus! {

/// The PNG file signature.
pub open spec fn png_signature() -> Seq<u8> {
    seq![137u8, 80u8, 78u8, 71u8, 13u8, 10u8, 26u8, 10u8]
}

/// The big-endian 32-bit number in the four bytes of `s` from `i` on.
pub open spec fn be_u32(s: Seq<u8>, i: int) -> int {
    s[i] * 16777216 + s[i + 1] * 65536 + s[i + 2] * 256 + s[i + 3]
}

/// Whether the chunk that starts at `p` (length, then type) has the type
/// `t`, given as its four bytes.
pub open spec fn chunk_type_is(s: Seq<u8>, p: int, t: (u8, u8, u8, u8)) -> bool {
    s[p + 4] == t.0 && s[p + 5] == t.1 && s[p + 6] == t.2 && s[p + 7] == t.3
}

/// Chunk types: `IHDR`, `PLTE`, `IDAT`, `IEND`, `tRNS`.
pub open spec fn ihdr_type() -> (u8, u8, u8, u8) { (73u8, 72u8, 68u8, 82u8) }
pub open spec fn plte_type() -> (u8, u8, u8, u8) { (80u8, 76u8, 84u8, 69u8) }
pub open spec fn idat_type() -> (u8, u8, u8, u8) { (73u8, 68u8, 65u8, 84u8) }
pub open spec fn iend_type() -> (u8, u8, u8, u8) { (73u8, 69u8, 78u8, 68u8) }
pub open spec fn trns_type() -> (u8, u8, u8, u8) { (116u8, 82u8, 78u8, 83u8) }

/// The colour type and bit depth pairs that the PNG specification allows.
pub open spec fn colour_depth_allowed(colour: u8, depth: u8) -> bool {
    ||| colour == 0 && (depth == 1 || depth == 2 || depth == 4 || depth == 8 || depth == 16)
    ||| colour == 3 && (depth == 1 || depth == 2 || depth == 4 || depth == 8)
    ||| (colour == 2 || colour == 4 || colour == 6) && (depth == 8 || depth == 16)
}

/// The chunks from position `p` on, up to `IEND` or the last chunk whose
/// data is complete, keep the header fixed: none is an `IHDR`, and no
/// `PLTE` or `tRNS` comes after image data (`IDAT`) has begun.
/// `seen_image_data` says whether an `IDAT` came before `p`.
pub open spec fn chunks_keep_header(s: Seq<u8>, p: int, seen_image_data: bool) -> bool
    decreases s.len() + 12 - p,
{
    if p < 0 || p + 8 > s.len() || p + 8 + be_u32(s, p) > s.len() {
        true
    } else if chunk_type_is(s, p, iend_type()) {
        true
    } else if chunk_type_is(s, p, ihdr_type()) {
        false
    } else if seen_image_data && (chunk_type_is(s, p, plte_type()) || chunk_type_is(s, p, trns_type())) {
        false
    } else {
        chunks_keep_header(s, p + 12 + be_u32(s, p), seen_image_data || chunk_type_is(s, p, idat_type()))
    }
}

/// The image's structure is one the decoder handles: the PNG signature,
/// then an `IHDR` chunk of 13 bytes with a non-zero width and height, a
/// colour type and bit depth that go together, compression and filter
/// method 0 and interlace method 0 or 1; after it, no chunk changes the
/// header (see [`chunks_keep_header`]).
pub open spec fn png_layout_ok(s: Seq<u8>) -> bool {
    &&& s.len() >= 33
    &&& s.subrange(0, 8) == png_signature()
    &&& be_u32(s, 8) == 13
    &&& chunk_type_is(s, 8, ihdr_type())
    &&& be_u32(s, 16) >= 1
    &&& be_u32(s, 20) >= 1
    &&& colour_depth_allowed(s[25], s[24])
    &&& s[26] == 0
    &&& s[27] == 0
    &&& (s[28] == 0 || s[28] == 1)
    &&& chunks_keep_header(s, 33, false)
}

/// The colour type and bit depth pairs accepted are exactly the fifteen of
/// the PNG specification: greyscale (0) at 1, 2, 4, 8, 16 bits; truecolour
/// (2) at 8, 16; indexed (3) at 1, 2, 4, 8; greyscale with alpha (4) at
/// 8, 16; truecolour with alpha (6) at 8, 16.
pub proof fn lemma_colour_depth_table(colour: u8, depth: u8)
    ensures
        colour_depth_allowed(colour, depth) <==> {
            ||| colour == 0 && depth == 1
            ||| colour == 0 && depth == 2
            ||| colour == 0 && depth == 4
            ||| colour == 0 && depth == 8
            ||| colour == 0 && depth == 16
            ||| colour == 2 && depth == 8
            ||| colour == 2 && depth == 16
            ||| colour == 3 && depth == 1
            ||| colour == 3 && depth == 2
            ||| colour == 3 && depth == 4
            ||| colour == 3 && depth == 8
            ||| colour == 4 && depth == 8
            ||| colour == 4 && depth == 16
            ||| colour == 6 && depth == 8
            ||| colour == 6 && depth == 16
        },
{
}

/// A chunk's type is the four bytes after its length field.
pub proof fn lemma_chunk_type_bytes(s: Seq<u8>, p: int, t: (u8, u8, u8, u8))
    ensures
        chunk_type_is(s, p, t) <==> (s[p + 4] == t.0 && s[p + 5] == t.1 && s[p + 6] == t.2 && s[p + 7] == t.3),
{
}

/// The layout check in terms of the bytes: the signature 137 80 78 71 13 10
/// 26 10; a length field 0 0 0 13 and the type `IHDR` (73 72 68 82); width
/// (bytes 16..20) and height (bytes 20..24) not zero; bit depth (byte 24)
/// and colour type (byte 25) an allowed pair; bytes 26 and 27 zero; byte 28
/// zero or one; then chunks that keep the header from byte 33 on.
pub proof fn lemma_layout_bytes(s: Seq<u8>)
    ensures
        png_layout_ok(s) <==> {
            &&& s.len() >= 33
            &&& s[0] == 137 && s[1] == 80 && s[2] == 78 && s[3] == 71
            &&& s[4] == 13 && s[5] == 10 && s[6] == 26 && s[7] == 10
            &&& s[8] == 0 && s[9] == 0 && s[10] == 0 && s[11] == 13
            &&& s[12] == 73 && s[13] == 72 && s[14] == 68 && s[15] == 82
            &&& (s[16] != 0 || s[17] != 0 || s[18] != 0 || s[19] != 0)
            &&& (s[20] != 0 || s[21] != 0 || s[22] != 0 || s[23] != 0)
            &&& colour_depth_allowed(s[25], s[24])
            &&& s[26] == 0 && s[27] == 0 && (s[28] == 0 || s[28] == 1)
            &&& chunks_keep_header(s, 33, false)
        },
{
    if s.len() >= 33 {
        let sig = s.subrange(0, 8);
        if s[0] == 137 && s[1] == 80 && s[2] == 78 && s[3] == 71 && s[4] == 13 && s[5] == 10 && s[6] == 26 && s[7] == 10 {
            assert(sig =~= png_signature());
        }
        if sig == png_signature() {
            assert(sig[0] == s[0] && sig[1] == s[1] && sig[2] == s[2] && sig[3] == s[3]);
            assert(sig[4] == s[4] && sig[5] == s[5] && sig[6] == s[6] && sig[7] == s[7]);
        }
    }
}

/// Four bytes read as a big-endian number: the first weighs 2^24, the
/// second 2^16, the third 2^8 and the last 1.
pub proof fn lemma_be_u32_weights(s: Seq<u8>, i: int)
    ensures
        be_u32(s, i) == s[i] * 0x100_0000 + s[i + 1] * 0x1_0000 + s[i + 2] * 0x100 + s[i + 3],
{
}

/// Reading back the big-endian encoding of any 32-bit number gives the
/// number.
pub proof fn lemma_be_u32_round_trip(n: u32)
    ensures
        be_u32(seq![(n >> 24u32) as u8, (n >> 16u32) as u8, (n >> 8u32) as u8, n as u8], 0) == n,
{
    let b0 = (n >> 24u32) as u8;
    let b1 = (n >> 16u32) as u8;
    let b2 = (n >> 8u32) as u8;
    let b3 = n as u8;
    assert(b0 as u32 * 0x100_0000u32 + b1 as u32 * 0x1_0000u32 + b2 as u32 * 0x100u32 + b3 as u32 == n)
        by (bit_vector)
        requires
            b0 == (n >> 24u32) as u8,
            b1 == (n >> 16u32) as u8,
            b2 == (n >> 8u32) as u8,
            b3 == n as u8;
    let s = seq![b0, b1, b2, b3];
    assert(s[0] == b0 && s[1] == b1 && s[2] == b2 && s[3] == b3);
}

/// A complete chunk at `p` that is not `IHDR` or `IEND`, and not `PLTE` or
/// `tRNS` once image data has begun, never changes the header: the walk
/// goes on with the next chunk, at `p + 12 + length`, having seen image
/// data if this chunk is `IDAT`. In particular image data may be split over
/// any number of `IDAT` chunks.
pub proof fn lemma_chunk_passes(s: Seq<u8>, p: int, seen_image_data: bool)
    requires
        0 <= p,
        p + 8 + be_u32(s, p) <= s.len(),
        !(s[p + 4] == 73 && s[p + 5] == 72 && s[p + 6] == 68 && s[p + 7] == 82),
        !(s[p + 4] == 73 && s[p + 5] == 69 && s[p + 6] == 78 && s[p + 7] == 68),
        seen_image_data ==> !(s[p + 4] == 80 && s[p + 5] == 76 && s[p + 6] == 84 && s[p + 7] == 69),
        seen_image_data ==> !(s[p + 4] == 116 && s[p + 5] == 82 && s[p + 6] == 78 && s[p + 7] == 83),
    ensures
        chunks_keep_header(s, p, seen_image_data) == chunks_keep_header(
            s,
            p + 12 + be_u32(s, p),
            seen_image_data || (s[p + 4] == 73 && s[p + 5] == 68 && s[p + 6] == 65 && s[p + 7] == 84),
        ),
{
}

/// The walk refuses a second `IHDR`, and a `PLTE` or `tRNS` once image data
/// has begun; it stops, accepting, at `IEND`.
pub proof fn lemma_chunk_refused(s: Seq<u8>, p: int, seen_image_data: bool)
    requires
        0 <= p,
        p + 8 + be_u32(s, p) <= s.len(),
    ensures
        (s[p + 4] == 73 && s[p + 5] == 72 && s[p + 6] == 68 && s[p + 7] == 82)
            ==> !chunks_keep_header(s, p, seen_image_data),
        (s[p + 4] == 73 && s[p + 5] == 69 && s[p + 6] == 78 && s[p + 7] == 68)
            ==> chunks_keep_header(s, p, seen_image_data),
        seen_image_data && (s[p + 4] == 80 && s[p + 5] == 76 && s[p + 6] == 84 && s[p + 7] == 69)
            ==> !chunks_keep_header(s, p, seen_image_data),
        seen_image_data && (s[p + 4] == 116 && s[p + 5] == 82 && s[p + 6] == 78 && s[p + 7] == 83)
            ==> !chunks_keep_header(s, p, seen_image_data),
{
}

/// What the `png` decoder makes of `bytes`: the width, the height and the
/// pixels of the first frame, or `None` when the bytes are not a PNG image
/// it can decode (within its default limit of 2^26 pixels).
pub uninterp spec fn png_first_frame(bytes: Seq<u8>) -> Option<(u32, u32, Seq<u8>)>;

/// `png::Decoder::new`, `Decoder::read_info` and `Reader::next_frame` on a
/// buffer of `OutputInfo::buffer_size` bytes: the first frame of the image
/// in `bytes`, or `None` when either call returns an error.
///
/// The decoder does not check that the colour type goes with the bit
/// depth, and sizes its buffers from the header; a header outside the
/// allowed pairs, or an `IHDR`, `PLTE` or `tRNS` chunk that changes it once
/// image data has begun, can make it index past a buffer and panic. The
/// `requires` leaves those inputs out. The only other panic its source
/// shows is an overflow of the animation sequence number, which takes
/// 2^32 animation chunks.
#[verifier::external_body]
fn png_decode(bytes: &[u8]) -> (r: Option<(u32, u32, Vec<u8>)>)
    requires
        png_layout_ok(bytes@),
    ensures
        match r {
            Some((w, h, p)) => png_first_frame(bytes@) == Some((w, h, p@)),
            None => png_first_frame(bytes@) is None,
        },
{
    let (info, mut reader) = png::Decoder::new(bytes).read_info().ok()?;
    let mut pixels = vec![0u8; info.buffer_size()];
    reader.next_frame(&mut pixels).ok()?;
    Some((info.width, info.height, pixels))
}

/// The big-endian 32-bit number in the four bytes from `i` on.
fn read_be_u32(bytes: &[u8], i: usize) -> (n: u64)
    requires
        i + 4 <= bytes.len(),
    ensures
        n == be_u32(bytes@, i as int),
        n == bytes@[i as int] * 0x100_0000 + bytes@[i + 1] * 0x1_0000 + bytes@[i + 2] * 0x100 + bytes@[i + 3],
        n < 0x1_0000_0000,
{
    let b0 = bytes[i] as u64;
    let b1 = bytes[i + 1] as u64;
    let b2 = bytes[i + 2] as u64;
    let b3 = bytes[i + 3] as u64;
    b0 * 16777216 + b1 * 65536 + b2 * 256 + b3
}

/// Whether the chunk that starts at `p` has the type `a b c d`.
fn has_chunk_type(bytes: &[u8], p: usize, a: u8, b: u8, c: u8, d: u8) -> (r: bool)
    requires
        p + 8 <= bytes.len(),
    ensures
        r == chunk_type_is(bytes@, p as int, (a, b, c, d)),
{
    bytes[p + 4] == a && bytes[p + 5] == b && bytes[p + 6] == c && bytes[p + 7] == d
}

/// Walks the chunks from `start` on and tells whether they keep the header
/// fixed.
fn check_chunks(bytes: &[u8], start: usize) -> (r: bool)
    requires
        start <= bytes@.len(),
    ensures
        r == chunks_keep_header(bytes@, start as int, false),
{
    let len = bytes.len();
    let mut p = start;
    let mut seen_image_data = false;
    while len - p >= 8
        invariant
            len == bytes@.len(),
            p <= len,
            chunks_keep_header(bytes@, start as int, false)
                == chunks_keep_header(bytes@, p as int, seen_image_data),
        decreases len - p,
    {
        let data_len = read_be_u32(bytes, p);
        if data_len > (len - p - 8) as u64 {
            return true;
        }
        let l = data_len as usize;
        if has_chunk_type(bytes, p, 73, 69, 78, 68) {
            return true;
        }
        if has_chunk_type(bytes, p, 73, 72, 68, 82) {
            return false;
        }
        if seen_image_data
            && (has_chunk_type(bytes, p, 80, 76, 84, 69) || has_chunk_type(bytes, p, 116, 82, 78, 83)) {
            return false;
        }
        if has_chunk_type(bytes, p, 73, 68, 65, 84) {
            seen_image_data = true;
        }
        if len - (p + 8 + l) < 4 {
            proof {
                let next = p + 12 + l;
                assert(next + 8 > len);
                assert(chunks_keep_header(bytes@, next as int, seen_image_data));
            }
            return true;
        }
        p = p + 12 + l;
    }
    true
}

/// Whether `bytes` have a structure that the decoder handles (see
/// [`png_layout_ok`]).
pub fn is_decodable_layout(bytes: &[u8]) -> (r: bool)
    ensures
        r == png_layout_ok(bytes@),
{
    if bytes.len() < 33 {
        return false;
    }
    let signature_ok = bytes[0] == 137 && bytes[1] == 80 && bytes[2] == 78 && bytes[3] == 71
        && bytes[4] == 13 && bytes[5] == 10 && bytes[6] == 26 && bytes[7] == 10;
    assert(signature_ok == (bytes@.subrange(0, 8) =~= png_signature()));
    if !signature_ok {
        return false;
    }
    if read_be_u32(bytes, 8) != 13 || !has_chunk_type(bytes, 8, 73, 72, 68, 82) {
        return false;
    }
    if read_be_u32(bytes, 16) < 1 || read_be_u32(bytes, 20) < 1 {
        return false;
    }
    let depth = bytes[24];
    let colour = bytes[25];
    let pair_ok = (colour == 0 && (depth == 1 || depth == 2 || depth == 4 || depth == 8 || depth == 16))
        || (colour == 3 && (depth == 1 || depth == 2 || depth == 4 || depth == 8))
        || ((colour == 2 || colour == 4 || colour == 6) && (depth == 8 || depth == 16));
    if !pair_ok {
        return false;
    }
    if bytes[26] != 0 || bytes[27] != 0 || !(bytes[28] == 0 || bytes[28] == 1) {
        return false;
    }
    check_chunks(bytes, 33)
}

/// A decoded image: its size in pixels and its pixel bytes, row by row.
pub struct DecodedImage {
    pub width: u32,
    pub height: u32,
    pub pixels: Vec<u8>,
}

/// Decodes the PNG image in `bytes`, keeping its first frame; `None` when
/// the bytes do not have a structure the decoder handles, or are not a PNG
/// image that it can decode.
pub fn decode_image(bytes: &[u8]) -> (r: Option<DecodedImage>)
    ensures
        match r {
            Some(img) => png_layout_ok(bytes@)
                && png_first_frame(bytes@) == Some((img.width, img.height, img.pixels@)),
            None => !png_layout_ok(bytes@) || png_first_frame(bytes@) is None,
        },
{
    if !is_decodable_layout(bytes) {
        return None;
    }
    match png_decode(bytes) {
        Some((width, height, pixels)) => Some(DecodedImage { width, height, pixels }),
        None => None,
    }
}

} // verus!
