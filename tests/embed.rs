use image_provenance::embed::{
    embed, embed_in_jpeg, embed_in_png, embed_metadata, insert_jpeg_comment, parse_text_payload,
    read_jpeg_comment, read_png_marker, text_payload, EmbedError,
};

fn solid_red_png(width: u32, height: u32) -> Vec<u8> {
    let mut out = Vec::new();
    {
        let mut enc = png::Encoder::new(&mut out, width, height);
        enc.set_color(png::ColorType::Rgb);
        enc.set_depth(png::BitDepth::Eight);
        let mut w = enc.write_header().unwrap();
        let data: Vec<u8> = (0..width * height).flat_map(|_| [255u8, 0, 0]).collect();
        w.write_image_data(&data).unwrap();
    }
    out
}

fn png_pixels(bytes: &[u8]) -> (u32, u32, png::ColorType, png::BitDepth, Vec<u8>) {
    let mut reader = png::Decoder::new(std::io::Cursor::new(bytes)).read_info().unwrap();
    let mut buf = vec![0; reader.output_buffer_size()];
    let info = reader.next_frame(&mut buf).unwrap();
    buf.truncate(info.buffer_size());
    (info.width, info.height, info.color_type, info.bit_depth, buf)
}

fn tiny_jpeg() -> Vec<u8> {
    vec![0xFF, 0xD8, 0xFF, 0xE0, 0x00, 0x04, 0x4A, 0x46, 0xFF, 0xD9]
}

#[test]
fn jpeg_comment_is_spliced_after_soi() {
    let out = insert_jpeg_comment(&tiny_jpeg(), b"abc").unwrap();
    assert_eq!(
        out,
        vec![0xFF, 0xD8, 0xFF, 0xFE, 0x00, 0x05, b'a', b'b', b'c', 0xFF, 0xE0, 0x00, 0x04, 0x4A, 0x46, 0xFF, 0xD9]
    );
}

#[test]
fn jpeg_round_trip_recovers_marker_and_bytes() {
    let input = tiny_jpeg();
    let marker = b"abc123|dalle";
    let out = embed(&input, marker).unwrap();
    assert_eq!(read_jpeg_comment(&out).unwrap(), marker.to_vec());
    let mut rest = out[..2].to_vec();
    rest.extend_from_slice(&out[6 + marker.len()..]);
    assert_eq!(rest, input);
}

#[test]
fn jpeg_without_soi_is_invalid() {
    assert_eq!(insert_jpeg_comment(&[0xFF, 0xD9, 0x00], b"x"), Err(EmbedError::InvalidFormat));
    assert_eq!(insert_jpeg_comment(&[0xFF], b"x"), Err(EmbedError::InvalidFormat));
    assert_eq!(embed_in_jpeg(b"GIF89a", "t", "p"), Err(EmbedError::InvalidFormat));
}

#[test]
fn jpeg_marker_too_long_is_refused() {
    let long = vec![b'x'; 65534];
    assert_eq!(insert_jpeg_comment(&tiny_jpeg(), &long), Err(EmbedError::MarkerTooLong));
    let longest = vec![b'x'; 65533];
    let out = insert_jpeg_comment(&tiny_jpeg(), &longest).unwrap();
    assert_eq!(&out[4..6], &[0xFF, 0xFF]);
    assert_eq!(read_jpeg_comment(&out).unwrap(), longest);
}

#[test]
fn empty_jpeg_marker() {
    let out = insert_jpeg_comment(&tiny_jpeg(), b"").unwrap();
    assert_eq!(&out[..6], &[0xFF, 0xD8, 0xFF, 0xFE, 0x00, 0x02]);
    assert_eq!(read_jpeg_comment(&out).unwrap(), Vec::<u8>::new());
}

#[test]
fn jpeg_metadata_comment_format() {
    let out = embed_in_jpeg(&tiny_jpeg(), "abc123", "dalle").unwrap();
    assert_eq!(read_jpeg_comment(&out).unwrap(), b"0byte_txn:abc123|dalle".to_vec());
    let via_dispatch = embed_metadata(&tiny_jpeg(), "abc123", "dalle").unwrap();
    assert_eq!(via_dispatch, out);
}

#[test]
fn jpeg_comment_absent() {
    assert_eq!(read_jpeg_comment(&tiny_jpeg()), None);
    assert_eq!(read_jpeg_comment(b"abc"), None);
}

#[test]
fn png_round_trip_keeps_pixels_and_marker() {
    let input = solid_red_png(2, 2);
    let out = embed(&input, b"abc123|dalle").unwrap();
    assert_eq!(read_png_marker(&out).unwrap(), b"abc123|dalle".to_vec());
    assert_eq!(png_pixels(&out), png_pixels(&input));
    assert_eq!(read_png_marker(&input), None);
}

#[test]
fn png_text_chunk_precedes_image_data() {
    let out = embed(&solid_red_png(3, 1), b"m").unwrap();
    let text = out.windows(4).position(|w| w == b"tEXt").unwrap();
    let data = out.windows(4).position(|w| w == b"IDAT").unwrap();
    assert!(text < data);
}

#[test]
fn png_marker_seen_by_png_decoder() {
    let out = embed_in_png(&solid_red_png(2, 2), "abc123", "dalle").unwrap();
    let reader = png::Decoder::new(std::io::Cursor::new(&out[..])).read_info().unwrap();
    let texts = &reader.info().uncompressed_latin1_text;
    assert_eq!(texts.len(), 1);
    assert_eq!(texts[0].keyword, "0byte_proof");
    assert_eq!(texts[0].text, "abc123|dalle");
}

#[test]
fn png_metadata_dispatch() {
    let input = solid_red_png(4, 4);
    let out = embed_metadata(&input, "tx", "midjourney").unwrap();
    assert_eq!(read_png_marker(&out).unwrap(), b"tx|midjourney".to_vec());
    assert_eq!(png_pixels(&out), png_pixels(&input));
}

#[test]
fn corrupt_png_fails_to_decode() {
    let mut bad = solid_red_png(2, 2);
    bad.truncate(20);
    assert_eq!(embed(&bad, b"m"), Err(EmbedError::DecodeError));
    assert_eq!(embed_in_png(&bad, "t", "p"), Err(EmbedError::DecodeError));
}

#[test]
fn other_formats_are_unsupported() {
    assert_eq!(embed(b"GIF89a....", b"m"), Err(EmbedError::UnsupportedFormat));
    assert_eq!(embed(b"hello world", b"m"), Err(EmbedError::UnsupportedFormat));
    assert_eq!(embed_metadata(b"", "t", "p"), Err(EmbedError::UnsupportedFormat));
    assert_eq!(embed(&[0xFF, 0xD8, 0x00], b"m"), Err(EmbedError::UnsupportedFormat));
}

#[test]
fn text_payload_layout() {
    let p = text_payload(b"abc");
    assert_eq!(p, b"0byte_proof\0abc".to_vec());
    assert_eq!(parse_text_payload(&p).unwrap(), b"abc".to_vec());
    assert_eq!(parse_text_payload(b"other_keyword\0abc"), None);
    assert_eq!(parse_text_payload(b"0byte_proof"), None);
}

fn indexed_png() -> Vec<u8> {
    let mut out = Vec::new();
    {
        let mut enc = png::Encoder::new(&mut out, 3, 2);
        enc.set_color(png::ColorType::Indexed);
        enc.set_depth(png::BitDepth::Eight);
        enc.set_palette(vec![255u8, 0, 0, 0, 0, 255, 0, 255, 0]);
        enc.set_trns(vec![255u8, 128]);
        let mut w = enc.write_header().unwrap();
        w.write_image_data(&[0, 1, 2, 2, 1, 0]).unwrap();
    }
    out
}

fn expanded_pixels(bytes: &[u8]) -> Vec<u8> {
    let mut dec = png::Decoder::new(std::io::Cursor::new(bytes));
    dec.set_transformations(png::Transformations::EXPAND);
    let mut reader = dec.read_info().unwrap();
    let mut buf = vec![0; reader.output_buffer_size()];
    let info = reader.next_frame(&mut buf).unwrap();
    buf.truncate(info.buffer_size());
    buf
}

#[test]
fn indexed_png_keeps_palette_and_transparency() {
    let input = indexed_png();
    let out = embed(&input, b"abc123|dalle").unwrap();
    assert_eq!(read_png_marker(&out).unwrap(), b"abc123|dalle".to_vec());
    assert_eq!(png_pixels(&out), png_pixels(&input));
    assert_eq!(expanded_pixels(&out), expanded_pixels(&input));
    let reader = png::Decoder::new(std::io::Cursor::new(&out[..])).read_info().unwrap();
    assert_eq!(reader.info().palette.as_deref(), Some(&[255u8, 0, 0, 0, 0, 255, 0, 255, 0][..]));
    assert_eq!(reader.info().trns.as_deref(), Some(&[255u8, 128][..]));
}

#[test]
fn embedded_output_keeps_its_format() {
    let png_out = embed(&indexed_png(), b"m").unwrap();
    assert_eq!(&png_out[..8], b"\x89PNG\r\n\x1a\n");
    let jpeg_out = embed(&tiny_jpeg(), b"m").unwrap();
    assert_eq!(&jpeg_out[..3], &[0xFF, 0xD8, 0xFF]);
}
