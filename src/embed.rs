//! Embedding a provenance marker into PNG and JPEG byte streams, and reading
//! it back out.

use vstd::prelude::*;
use vstd::string::StringSliceAdditionalSpecFns;

use crate::bytes::{append_bytes, be_value, copy_range, lemma_be_value_bound, pow256, read_be};

verus! {

/// The image formats the embedder tells apart.
#[derive(Clone, Copy, Debug, PartialEq, Eq)]
pub enum ImageKind {
    Png,
    Jpeg,
    Unrecognized,
}

/// Why a marker could not be embedded.
#[derive(Clone, Copy, Debug, PartialEq, Eq)]
pub enum EmbedError {
    /// The bytes are neither PNG nor JPEG.
    UnsupportedFormat,
    /// A JPEG target does not begin with the Start-Of-Image marker.
    InvalidFormat,
    /// The PNG stream could not be decoded.
    DecodeError,
    /// The PNG encoder refused the decoded frame.
    EncodeError,
    /// The marker does not fit in one JPEG comment segment.
    MarkerTooLong,
}

/// The eight bytes that open every PNG stream.
pub open spec fn png_signature() -> Seq<u8> {
    seq![0x89u8, 0x50, 0x4E, 0x47, 0x0D, 0x0A, 0x1A, 0x0A]
}

/// The bytes by which the image decoder recognises a JPEG stream.
pub open spec fn jpeg_signature() -> Seq<u8> {
    seq![0xFFu8, 0xD8, 0xFF]
}

pub open spec fn starts_with(s: Seq<u8>, prefix: Seq<u8>) -> bool {
    prefix.len() <= s.len() && s.subrange(0, prefix.len() as int) == prefix
}

/// The format that the leading bytes announce.
pub open spec fn kind_of(s: Seq<u8>) -> ImageKind {
    if starts_with(s, png_signature()) {
        ImageKind::Png
    } else if starts_with(s, jpeg_signature()) {
        ImageKind::Jpeg
    } else {
        ImageKind::Unrecognized
    }
}

/// Relies on `image::guess_format`: it returns `Png` exactly when the bytes
/// start with the PNG signature and otherwise `Jpeg` exactly when they start
/// with `FF D8 FF` (the first two rows of its table of magic bytes); any other
/// outcome is reported here as `Unrecognized`.
#[verifier::external_body]
pub(crate) fn guess_format(image_bytes: &[u8]) -> (r: ImageKind)
    ensures
        r == kind_of(image_bytes@),
{
    match image::guess_format(image_bytes) {
        Ok(image::ImageFormat::Png) => ImageKind::Png,
        Ok(image::ImageFormat::Jpeg) => ImageKind::Jpeg,
        _ => ImageKind::Unrecognized,
    }
}

/// The longest comment a JPEG COM segment can carry: its two-byte length
/// field counts itself too.
pub const MAX_JPEG_COMMENT: usize = 65533;

/// `image` with a COM segment carrying `comment` spliced in right after the
/// two-byte Start-Of-Image marker.
pub open spec fn jpeg_with_comment(image: Seq<u8>, comment: Seq<u8>) -> Seq<u8> {
    image.subrange(0, 2) + seq![
        0xFFu8,
        0xFEu8,
        ((comment.len() + 2) / 256) as u8,
        ((comment.len() + 2) % 256) as u8,
    ] + comment + image.subrange(2, image.len() as int)
}

/// The payload of the COM segment that directly follows the Start-Of-Image
/// marker, if there is one.
pub open spec fn jpeg_comment_of(s: Seq<u8>) -> Option<Seq<u8>> {
    if s.len() >= 6 && s[0] == 0xFFu8 && s[1] == 0xD8u8 && s[2] == 0xFFu8 && s[3] == 0xFEu8 {
        let len = be_value(s.subrange(4, 6));
        if len >= 2 && 4 + len <= s.len() {
            Some(s.subrange(6, (4 + len) as int))
        } else {
            None
        }
    } else {
        None
    }
}

/// Splices a COM segment carrying `comment` into a JPEG stream right after
/// its Start-Of-Image marker; every other byte is kept, in order.
pub fn insert_jpeg_comment(image_bytes: &[u8], comment: &[u8]) -> (r: Result<Vec<u8>, EmbedError>)
    ensures
        !starts_with(image_bytes@, seq![0xFFu8, 0xD8]) ==> r == Err::<Vec<u8>, EmbedError>(
            EmbedError::InvalidFormat,
        ),
        starts_with(image_bytes@, seq![0xFFu8, 0xD8]) && comment@.len() > MAX_JPEG_COMMENT
            ==> r == Err::<Vec<u8>, EmbedError>(EmbedError::MarkerTooLong),
        starts_with(image_bytes@, seq![0xFFu8, 0xD8]) && comment@.len() <= MAX_JPEG_COMMENT
            ==> r is Ok && r->Ok_0@ == jpeg_with_comment(image_bytes@, comment@),
        r matches Ok(v) ==> kind_of(v@) == ImageKind::Jpeg,
{
    if image_bytes.len() < 2 || image_bytes[0] != 0xFFu8 || image_bytes[1] != 0xD8u8 {
        proof {
            if image_bytes@.len() >= 2 {
                assert(image_bytes@.subrange(0, 2)[0] == image_bytes@[0]);
                assert(image_bytes@.subrange(0, 2)[1] == image_bytes@[1]);
            }
        }
        return Err(EmbedError::InvalidFormat);
    }
    assert(image_bytes@.subrange(0, 2) =~= seq![0xFFu8, 0xD8]);
    if comment.len() > MAX_JPEG_COMMENT {
        return Err(EmbedError::MarkerTooLong);
    }
    let length: usize = comment.len() + 2;
    let mut out: Vec<u8> = Vec::new();
    out.push(0xFFu8);
    out.push(0xD8u8);
    out.push(0xFFu8);
    out.push(0xFEu8);
    out.push((length / 256) as u8);
    out.push((length % 256) as u8);
    append_bytes(&mut out, comment);
    let ghost head = out@;
    let mut i: usize = 2;
    while i < image_bytes.len()
        invariant
            2 <= i <= image_bytes@.len(),
            out@ == head + image_bytes@.subrange(2, i as int),
        decreases image_bytes@.len() - i,
    {
        out.push(image_bytes[i]);
        i = i + 1;
        assert(out@ =~= head + image_bytes@.subrange(2, i as int));
    }
    assert(out@ =~= jpeg_with_comment(image_bytes@, comment@));
    assert(out@.subrange(0, 3) =~= jpeg_signature());
    assert(out@.len() >= 8 ==> out@.subrange(0, 8)[0] == out@[0]);
    Ok(out)
}

/// Reads back the payload of the COM segment that directly follows the
/// Start-Of-Image marker.
pub fn read_jpeg_comment(image_bytes: &[u8]) -> (r: Option<Vec<u8>>)
    ensures
        r matches Some(v) ==> jpeg_comment_of(image_bytes@) == Some(v@),
        r is None ==> jpeg_comment_of(image_bytes@) is None,
{
    let n = image_bytes.len();
    if n < 6 || image_bytes[0] != 0xFFu8 || image_bytes[1] != 0xD8u8 || image_bytes[2] != 0xFFu8
        || image_bytes[3] != 0xFEu8 {
        return None;
    }
    let v = read_be(image_bytes, 4, 2);
    proof {
        lemma_be_value_bound(image_bytes@.subrange(4, 6));
        reveal_with_fuel(pow256, 3);
    }
    let len = v as usize;
    if len < 2 || len > n - 4 {
        return None;
    }
    Some(copy_range(image_bytes, 6, 4 + len))
}

/// A JPEG comment survives the round trip: the segment spliced in reads back
/// as exactly the comment, and removing it gives back every input byte in
/// order.
pub proof fn jpeg_comment_round_trip(image: Seq<u8>, comment: Seq<u8>)
    requires
        starts_with(image, seq![0xFFu8, 0xD8]),
        comment.len() <= MAX_JPEG_COMMENT,
    ensures
        jpeg_comment_of(jpeg_with_comment(image, comment)) == Some(comment),
        ({
            let out = jpeg_with_comment(image, comment);
            out.subrange(0, 2) + out.subrange((6 + comment.len()) as int, out.len() as int) == image
        }),
{
    let out = jpeg_with_comment(image, comment);
    let n = comment.len() + 2;
    let hi = (n / 256) as u8;
    let lo = (n % 256) as u8;
    assert(image.subrange(0, 2) =~= seq![0xFFu8, 0xD8]);
    assert(out.subrange(4, 6) =~= seq![hi, lo]);
    assert(seq![hi, lo].drop_last() =~= seq![hi]);
    assert(seq![hi].drop_last() =~= Seq::<u8>::empty());
    assert(n / 256 < 256 && (n / 256) * 256 + n % 256 == n) by (nonlinear_arith)
        requires
            n <= 65535,
    ;
    reveal_with_fuel(be_value, 3);
    assert(be_value(seq![hi, lo]) == n);
    assert(out.subrange(6, (4 + n) as int) =~= comment);
    assert(out.subrange(0, 2) + out.subrange((6 + comment.len()) as int, out.len() as int) =~= image);
}

/// A decoded PNG frame: its header fields as PNG codes, its palette and
/// transparency chunks as the stream held them, and its raw pixel rows
/// exactly as the decoder returned them.
#[derive(Clone, Debug, PartialEq, Eq)]
pub struct PngFrame {
    pub width: u32,
    pub height: u32,
    /// PNG colour-type code (0, 2, 3, 4 or 6).
    pub color_type: u8,
    /// Bits per sample (1, 2, 4, 8 or 16).
    pub bit_depth: u8,
    /// Contents of the `PLTE` chunk, if any.
    pub palette: Option<Vec<u8>>,
    /// Contents of the `tRNS` chunk, if any.
    pub transparency: Option<Vec<u8>>,
    pub pixels: Vec<u8>,
}

/// The bytes an optional buffer holds.
pub open spec fn opt_bytes(o: Option<Vec<u8>>) -> Option<Seq<u8>> {
    match o {
        Some(v) => Some(v@),
        None => None,
    }
}

/// A frame as plain values: width, height, colour type, bit depth, palette,
/// transparency, pixel data.
pub open spec fn frame_view(f: PngFrame) -> (u32, u32, u8, u8, Option<Seq<u8>>, Option<Seq<u8>>, Seq<u8>) {
    (f.width, f.height, f.color_type, f.bit_depth, opt_bytes(f.palette), opt_bytes(f.transparency), f.pixels@)
}

/// What the PNG decoder yields for a byte stream: the header fields, palette,
/// transparency and raw pixel data of its first frame, or nothing when it
/// fails.
pub uninterp spec fn png_frame_of(data: Seq<u8>) -> Option<
    (u32, u32, u8, u8, Option<Seq<u8>>, Option<Seq<u8>>, Seq<u8>),
>;

/// What the PNG encoder writes for a frame (with its palette and
/// transparency chunks), a `tEXt` chunk holding `text` before the image data,
/// and the frame's pixels as image data; nothing when it refuses them.
pub uninterp spec fn png_with_text_of(
    frame: (u32, u32, u8, u8, Option<Seq<u8>>, Option<Seq<u8>>, Seq<u8>),
    text: Seq<u8>,
) -> Option<Seq<u8>>;

/// Relies on the `png` decoder (`Decoder::new`, `read_info`, `Reader::info`
/// for `PLTE` and `tRNS`, `next_frame`, with no transformation): the first
/// frame, which depends on the input bytes alone.
#[verifier::external_body]
fn decode_png(data: &[u8]) -> (r: Option<PngFrame>)
    ensures
        r is None <==> png_frame_of(data@) is None,
        r matches Some(f) ==> png_frame_of(data@) == Some(frame_view(f)),
{
    let mut reader = png::Decoder::new(std::io::Cursor::new(data)).read_info().ok()?;
    let palette = reader.info().palette.as_ref().map(|p| p.to_vec());
    let transparency = reader.info().trns.as_ref().map(|t| t.to_vec());
    let mut pixels = vec![0; reader.output_buffer_size()];
    let info = reader.next_frame(&mut pixels).ok()?;
    pixels.truncate(info.buffer_size());
    let (width, height) = (info.width, info.height);
    let (color_type, bit_depth) = (info.color_type as u8, info.bit_depth as u8);
    Some(PngFrame { width, height, color_type, bit_depth, palette, transparency, pixels })
}

/// Relies on the `png` encoder (`Encoder::new`, `set_color`, `set_depth`,
/// `set_palette`, `set_trns`, `write_header`, `write_chunk` with `tEXt`,
/// `write_image_data`): the stream it writes depends on its arguments alone,
/// and `write_header` puts the PNG signature first.
#[verifier::external_body]
fn encode_png_with_text(frame: &PngFrame, text: &[u8]) -> (r: Option<Vec<u8>>)
    ensures
        r is None <==> png_with_text_of(frame_view(*frame), text@) is None,
        r matches Some(v) ==> png_with_text_of(frame_view(*frame), text@) == Some(v@),
        r matches Some(v) ==> starts_with(v@, png_signature()),
{
    let mut out = Vec::new();
    let mut encoder = png::Encoder::new(&mut out, frame.width, frame.height);
    encoder.set_color(png::ColorType::from_u8(frame.color_type)?);
    encoder.set_depth(png::BitDepth::from_u8(frame.bit_depth)?);
    if let Some(p) = &frame.palette {
        encoder.set_palette(p.clone());
    }
    if let Some(t) = &frame.transparency {
        encoder.set_trns(t.clone());
    }
    let mut writer = encoder.write_header().ok()?;
    writer.write_chunk(png::chunk::tEXt, text).ok()?;
    writer.write_image_data(&frame.pixels).ok()?;
    writer.finish().ok()?;
    Some(out)
}

/// The keyword of the text chunk that carries the marker: `0byte_proof`.
pub open spec fn text_keyword() -> Seq<u8> {
    seq![0x30u8, 0x62, 0x79, 0x74, 0x65, 0x5F, 0x70, 0x72, 0x6F, 0x6F, 0x66]
}

/// The text chunk's data: keyword, one null separator, then the marker.
pub open spec fn text_payload_of(marker: Seq<u8>) -> Seq<u8> {
    text_keyword() + seq![0u8] + marker
}

/// Builds the text chunk's data for a marker.
pub fn text_payload(marker: &[u8]) -> (r: Vec<u8>)
    ensures
        r@ == text_payload_of(marker@),
{
    let mut r: Vec<u8> = Vec::new();
    r.push(0x30u8);
    r.push(0x62u8);
    r.push(0x79u8);
    r.push(0x74u8);
    r.push(0x65u8);
    r.push(0x5Fu8);
    r.push(0x70u8);
    r.push(0x72u8);
    r.push(0x6Fu8);
    r.push(0x6Fu8);
    r.push(0x66u8);
    r.push(0u8);
    append_bytes(&mut r, marker);
    assert(r@ =~= text_payload_of(marker@));
    r
}

/// The marker a text chunk's data carries, when its keyword is ours.
pub open spec fn marker_of_payload(data: Seq<u8>) -> Option<Seq<u8>> {
    if data.len() >= 12 && data.subrange(0, 12) == text_keyword() + seq![0u8] {
        Some(data.subrange(12, data.len() as int))
    } else {
        None
    }
}

/// Reads the marker out of a text chunk's data.
pub fn parse_text_payload(data: &[u8]) -> (r: Option<Vec<u8>>)
    ensures
        r matches Some(v) ==> marker_of_payload(data@) == Some(v@),
        r is None ==> marker_of_payload(data@) is None,
{
    let kw = text_payload(&[]);
    assert(kw@ =~= text_keyword() + seq![0u8]);
    if data.len() < 12 {
        return None;
    }
    let mut i: usize = 0;
    while i < 12
        invariant
            i <= 12 <= data@.len(),
            kw@ == text_keyword() + seq![0u8],
            forall|k: int| 0 <= k < i ==> data@[k] == kw@[k],
        decreases 12 - i,
    {
        if data[i] != kw[i] {
            assert(data@.subrange(0, 12)[i as int] != (text_keyword() + seq![0u8])[i as int]);
            return None;
        }
        i = i + 1;
    }
    assert(data@.subrange(0, 12) =~= text_keyword() + seq![0u8]);
    Some(copy_range(data, 12, data.len()))
}

/// A marker written into a text chunk's data reads back unchanged.
pub proof fn text_payload_round_trip(marker: Seq<u8>)
    ensures
        marker_of_payload(text_payload_of(marker)) == Some(marker),
{
    let d = text_payload_of(marker);
    assert(d.subrange(0, 12) =~= text_keyword() + seq![0u8]);
    assert(d.subrange(12, d.len() as int) =~= marker);
}

/// What embedding `marker` into a PNG stream gives: the decoded frame written
/// again with the same header fields, palette, transparency and pixel data,
/// plus the marker's text chunk.
pub open spec fn png_embedding_of(image: Seq<u8>, marker: Seq<u8>) -> Result<Seq<u8>, EmbedError> {
    match png_frame_of(image) {
        None => Err(EmbedError::DecodeError),
        Some(frame) => match png_with_text_of(frame, text_payload_of(marker)) {
            None => Err(EmbedError::EncodeError),
            Some(out) => Ok(out),
        },
    }
}

/// Decodes a PNG stream and writes it again with a text chunk carrying the
/// marker ahead of the image data; width, height, colour type, bit depth,
/// palette, transparency and pixel data are handed over unchanged. The
/// output is again a PNG stream.
pub fn embed_png_marker(image_bytes: &[u8], marker: &[u8]) -> (r: Result<Vec<u8>, EmbedError>)
    ensures
        r matches Ok(v) ==> png_embedding_of(image_bytes@, marker@) == Ok::<Seq<u8>, EmbedError>(v@),
        r matches Err(e) ==> png_embedding_of(image_bytes@, marker@) == Err::<Seq<u8>, EmbedError>(e),
        r matches Ok(v) ==> kind_of(v@) == ImageKind::Png,
{
    let frame = match decode_png(image_bytes) {
        Some(f) => f,
        None => return Err(EmbedError::DecodeError),
    };
    let text = text_payload(marker);
    match encode_png_with_text(&frame, text.as_slice()) {
        Some(out) => Ok(out),
        None => Err(EmbedError::EncodeError),
    }
}

/// What embedding `marker` into an image gives, by the format its leading
/// bytes announce.
pub open spec fn embedding_of(image: Seq<u8>, marker: Seq<u8>) -> Result<Seq<u8>, EmbedError> {
    match kind_of(image) {
        ImageKind::Png => png_embedding_of(image, marker),
        ImageKind::Jpeg => if marker.len() > MAX_JPEG_COMMENT {
            Err(EmbedError::MarkerTooLong)
        } else {
            Ok(jpeg_with_comment(image, marker))
        },
        ImageKind::Unrecognized => Err(EmbedError::UnsupportedFormat),
    }
}

/// Embeds an opaque marker into a PNG (as a text chunk) or a JPEG (as a
/// comment segment right after the Start-Of-Image marker); any other format
/// is refused.
pub fn embed(image_bytes: &[u8], marker: &[u8]) -> (r: Result<Vec<u8>, EmbedError>)
    ensures
        r matches Ok(v) ==> kind_of(v@) == kind_of(image_bytes@),
        r matches Ok(v) ==> embedding_of(image_bytes@, marker@) == Ok::<Seq<u8>, EmbedError>(v@),
        r matches Err(e) ==> embedding_of(image_bytes@, marker@) == Err::<Seq<u8>, EmbedError>(e),
{
    match guess_format(image_bytes) {
        ImageKind::Png => embed_png_marker(image_bytes, marker),
        ImageKind::Jpeg => {
            assert(image_bytes@.subrange(0, 2) =~= seq![0xFFu8, 0xD8]) by {
                assert(image_bytes@.subrange(0, 3)[0] == image_bytes@[0]);
                assert(image_bytes@.subrange(0, 3)[1] == image_bytes@[1]);
            }
            insert_jpeg_comment(image_bytes, marker)
        },
        ImageKind::Unrecognized => Err(EmbedError::UnsupportedFormat),
    }
}

/// The type tag of a PNG text chunk: `tEXt`.
pub open spec fn text_tag() -> Seq<u8> {
    seq![0x74u8, 0x45, 0x58, 0x74]
}

/// The first marker carried by a text chunk with our keyword, scanning the
/// chunk stream from offset `pos` (length, tag, data, checksum per chunk).
pub open spec fn png_marker_from(s: Seq<u8>, pos: int) -> Option<Seq<u8>>
    decreases s.len() - pos,
{
    if pos < 0 || pos + 12 > s.len() {
        None
    } else {
        let len = be_value(s.subrange(pos, pos + 4));
        let next = pos + 12 + len;
        if next > s.len() {
            None
        } else if s.subrange(pos + 4, pos + 8) == text_tag() && marker_of_payload(
            s.subrange(pos + 8, pos + 8 + len),
        ) is Some {
            marker_of_payload(s.subrange(pos + 8, pos + 8 + len))
        } else {
            png_marker_from(s, next)
        }
    }
}

/// The marker a PNG stream carries in a text chunk, if any.
pub open spec fn png_marker_of(s: Seq<u8>) -> Option<Seq<u8>> {
    if starts_with(s, png_signature()) {
        png_marker_from(s, 8)
    } else {
        None
    }
}

/// Scans a PNG stream's chunks for a text chunk with our keyword and returns
/// the marker it carries.
pub fn read_png_marker(image_bytes: &[u8]) -> (r: Option<Vec<u8>>)
    ensures
        r matches Some(v) ==> png_marker_of(image_bytes@) == Some(v@),
        r is None ==> png_marker_of(image_bytes@) is None,
{
    let n = image_bytes.len();
    if n < 8 || image_bytes[0] != 0x89u8 || image_bytes[1] != 0x50u8 || image_bytes[2] != 0x4Eu8
        || image_bytes[3] != 0x47u8 || image_bytes[4] != 0x0Du8 || image_bytes[5] != 0x0Au8
        || image_bytes[6] != 0x1Au8 || image_bytes[7] != 0x0Au8 {
        proof {
            if n >= 8 {
                let h = image_bytes@.subrange(0, 8);
                assert(h[0] == image_bytes@[0] && h[1] == image_bytes@[1] && h[2] == image_bytes@[2]
                    && h[3] == image_bytes@[3] && h[4] == image_bytes@[4] && h[5] == image_bytes@[5]
                    && h[6] == image_bytes@[6] && h[7] == image_bytes@[7]);
            }
        }
        return None;
    }
    assert(image_bytes@.subrange(0, 8) =~= png_signature());
    let mut pos: usize = 8;
    while n - pos >= 12
        invariant
            8 <= pos <= n,
            n == image_bytes@.len(),
            png_marker_of(image_bytes@) == png_marker_from(image_bytes@, pos as int),
        decreases n - pos,
    {
        let v = read_be(image_bytes, pos, 4);
        proof {
            lemma_be_value_bound(image_bytes@.subrange(pos as int, pos + 4));
            reveal_with_fuel(pow256, 5);
        }
        if v > (n - pos - 12) as u64 {
            return None;
        }
        let len = v as usize;
        let tag = image_bytes[pos + 4] == 0x74u8 && image_bytes[pos + 5] == 0x45u8
            && image_bytes[pos + 6] == 0x58u8 && image_bytes[pos + 7] == 0x74u8;
        proof {
            let t = image_bytes@.subrange(pos + 4, pos + 8);
            assert(t[0] == image_bytes@[pos + 4] && t[1] == image_bytes@[pos + 5]
                && t[2] == image_bytes@[pos + 6] && t[3] == image_bytes@[pos + 7]);
            assert(tag ==> t =~= text_tag());
        }
        if tag {
            let data = copy_range(image_bytes, pos + 8, pos + 8 + len);
            let found = parse_text_payload(data.as_slice());
            if found.is_some() {
                return found;
            }
        }
        pos = pos + 12 + len;
    }
    None
}

/// The marker for a ledger transaction: `<txn_id>|<platform>`.
pub open spec fn provenance_marker_of(txn_id: Seq<u8>, platform: Seq<u8>) -> Seq<u8> {
    txn_id + seq![0x7Cu8] + platform
}

/// The text that introduces the marker in a JPEG comment: `0byte_txn:`.
pub open spec fn jpeg_comment_prefix() -> Seq<u8> {
    seq![0x30u8, 0x62, 0x79, 0x74, 0x65, 0x5F, 0x74, 0x78, 0x6E, 0x3A]
}

/// The JPEG comment for a ledger transaction: `0byte_txn:<txn_id>|<platform>`.
pub open spec fn jpeg_comment_for(txn_id: Seq<u8>, platform: Seq<u8>) -> Seq<u8> {
    jpeg_comment_prefix() + provenance_marker_of(txn_id, platform)
}

/// Builds the marker `<txn_id>|<platform>`.
pub fn provenance_marker(txn_id: &str, platform_name: &str) -> (r: Vec<u8>)
    ensures
        r@ == provenance_marker_of(txn_id.spec_bytes(), platform_name.spec_bytes()),
{
    let mut r: Vec<u8> = Vec::new();
    append_bytes(&mut r, txn_id.as_bytes());
    r.push(0x7Cu8);
    append_bytes(&mut r, platform_name.as_bytes());
    assert(r@ =~= provenance_marker_of(txn_id.spec_bytes(), platform_name.spec_bytes()));
    r
}

/// Writes a PNG again with a text chunk carrying `<txn_id>|<platform>`.
pub fn embed_in_png(image_bytes: &[u8], txn_id: &str, platform_name: &str) -> (r: Result<Vec<u8>, EmbedError>)
    ensures
        ({
            let expected = png_embedding_of(
                image_bytes@,
                provenance_marker_of(txn_id.spec_bytes(), platform_name.spec_bytes()),
            );
            &&& r matches Ok(v) ==> expected == Ok::<Seq<u8>, EmbedError>(v@)
            &&& r matches Err(e) ==> expected == Err::<Seq<u8>, EmbedError>(e)
        }),
        r matches Ok(v) ==> kind_of(v@) == ImageKind::Png,
{
    let marker = provenance_marker(txn_id, platform_name);
    embed_png_marker(image_bytes, marker.as_slice())
}

/// Splices a comment `0byte_txn:<txn_id>|<platform>` into a JPEG right after
/// its Start-Of-Image marker.
pub fn embed_in_jpeg(image_bytes: &[u8], txn_id: &str, platform_name: &str) -> (r: Result<Vec<u8>, EmbedError>)
    ensures
        ({
            let comment = jpeg_comment_for(txn_id.spec_bytes(), platform_name.spec_bytes());
            &&& !starts_with(image_bytes@, seq![0xFFu8, 0xD8]) ==> r == Err::<Vec<u8>, EmbedError>(
                EmbedError::InvalidFormat,
            )
            &&& starts_with(image_bytes@, seq![0xFFu8, 0xD8]) && comment.len() > MAX_JPEG_COMMENT
                ==> r == Err::<Vec<u8>, EmbedError>(EmbedError::MarkerTooLong)
            &&& starts_with(image_bytes@, seq![0xFFu8, 0xD8]) && comment.len() <= MAX_JPEG_COMMENT
                ==> r is Ok && r->Ok_0@ == jpeg_with_comment(image_bytes@, comment)
        }),
        r matches Ok(v) ==> kind_of(v@) == ImageKind::Jpeg,
{
    let mut comment: Vec<u8> = Vec::new();
    comment.push(0x30u8);
    comment.push(0x62u8);
    comment.push(0x79u8);
    comment.push(0x74u8);
    comment.push(0x65u8);
    comment.push(0x5Fu8);
    comment.push(0x74u8);
    comment.push(0x78u8);
    comment.push(0x6Eu8);
    comment.push(0x3Au8);
    let marker = provenance_marker(txn_id, platform_name);
    append_bytes(&mut comment, marker.as_slice());
    assert(comment@ =~= jpeg_comment_for(txn_id.spec_bytes(), platform_name.spec_bytes()));
    insert_jpeg_comment(image_bytes, comment.as_slice())
}

/// What embedding a transaction's marker into an image gives, by the format
/// its leading bytes announce.
pub open spec fn metadata_embedding_of(image: Seq<u8>, txn_id: Seq<u8>, platform: Seq<u8>) -> Result<Seq<u8>, EmbedError> {
    match kind_of(image) {
        ImageKind::Png => png_embedding_of(image, provenance_marker_of(txn_id, platform)),
        ImageKind::Jpeg => if jpeg_comment_for(txn_id, platform).len() > MAX_JPEG_COMMENT {
            Err(EmbedError::MarkerTooLong)
        } else {
            Ok(jpeg_with_comment(image, jpeg_comment_for(txn_id, platform)))
        },
        ImageKind::Unrecognized => Err(EmbedError::UnsupportedFormat),
    }
}

/// Embeds the provenance of a ledger transaction into a PNG or JPEG image;
/// any other format is refused.
pub fn embed_metadata(image_bytes: &[u8], txn_id: &str, platform_name: &str) -> (r: Result<Vec<u8>, EmbedError>)
    ensures
        ({
            let expected = metadata_embedding_of(image_bytes@, txn_id.spec_bytes(), platform_name.spec_bytes());
            &&& r matches Ok(v) ==> expected == Ok::<Seq<u8>, EmbedError>(v@)
            &&& r matches Err(e) ==> expected == Err::<Seq<u8>, EmbedError>(e)
        }),
        r matches Ok(v) ==> kind_of(v@) == kind_of(image_bytes@),
{
    match guess_format(image_bytes) {
        ImageKind::Png => embed_in_png(image_bytes, txn_id, platform_name),
        ImageKind::Jpeg => {
            assert(image_bytes@.subrange(0, 2) =~= seq![0xFFu8, 0xD8]) by {
                assert(image_bytes@.subrange(0, 3)[0] == image_bytes@[0]);
                assert(image_bytes@.subrange(0, 3)[1] == image_bytes@[1]);
            }
            embed_in_jpeg(image_bytes, txn_id, platform_name)
        },
        ImageKind::Unrecognized => Err(EmbedError::UnsupportedFormat),
    }
}

/// Embedding into a JPEG round-trips: the output's comment segment reads back
/// as exactly the marker, and every byte outside that segment is the input's,
/// in the same order.
pub proof fn jpeg_embedding_round_trip(image: Seq<u8>, marker: Seq<u8>)
    requires
        kind_of(image) == ImageKind::Jpeg,
        marker.len() <= MAX_JPEG_COMMENT,
    ensures
        embedding_of(image, marker) == Ok::<Seq<u8>, EmbedError>(jpeg_with_comment(image, marker)),
        jpeg_comment_of(jpeg_with_comment(image, marker)) == Some(marker),
        ({
            let out = jpeg_with_comment(image, marker);
            out.subrange(0, 2) + out.subrange((6 + marker.len()) as int, out.len() as int) == image
        }),
{
    assert(image.subrange(0, 2) =~= seq![0xFFu8, 0xD8]) by {
        assert(image.subrange(0, 3)[0] == image[0]);
        assert(image.subrange(0, 3)[1] == image[1]);
    }
    jpeg_comment_round_trip(image, marker);
}

/// Bytes that announce neither PNG nor JPEG are refused with
/// `UnsupportedFormat`, and bytes that announce PNG but do not decode are
/// refused with `DecodeError`: no image comes back either way.
pub proof fn undecodable_input_is_refused(
    image: Seq<u8>,
    marker: Seq<u8>,
    txn_id: Seq<u8>,
    platform: Seq<u8>,
)
    ensures
        kind_of(image) == ImageKind::Unrecognized ==> {
            &&& embedding_of(image, marker) == Err::<Seq<u8>, EmbedError>(
                EmbedError::UnsupportedFormat,
            )
            &&& metadata_embedding_of(image, txn_id, platform) == Err::<Seq<u8>, EmbedError>(
                EmbedError::UnsupportedFormat,
            )
        },
        kind_of(image) == ImageKind::Png && png_frame_of(image) is None ==> {
            &&& embedding_of(image, marker) == Err::<Seq<u8>, EmbedError>(EmbedError::DecodeError)
            &&& metadata_embedding_of(image, txn_id, platform) == Err::<Seq<u8>, EmbedError>(
                EmbedError::DecodeError,
            )
        },
{
}

/// Embedding into a PNG hands the encoder exactly what the decoder gave:
/// the same width, height, colour type, bit depth, palette, transparency and
/// pixel data, with a
/// text chunk whose data reads back as exactly the marker.
pub proof fn png_embedding_keeps_frame(image: Seq<u8>, marker: Seq<u8>)
    requires
        kind_of(image) == ImageKind::Png,
        png_frame_of(image) is Some,
    ensures
        ({
            let frame = png_frame_of(image)->Some_0;
            let text = text_payload_of(marker);
            &&& marker_of_payload(text) == Some(marker)
            &&& png_with_text_of(frame, text) matches Some(out) ==> embedding_of(image, marker)
                == Ok::<Seq<u8>, EmbedError>(out)
            &&& png_with_text_of(frame, text) is None ==> embedding_of(image, marker) == Err::<
                Seq<u8>,
                EmbedError,
            >(EmbedError::EncodeError)
        }),
{
    text_payload_round_trip(marker);
}

} // verus!
