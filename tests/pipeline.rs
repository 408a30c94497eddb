use image_provenance::config::{bind_address, default_log_level, default_server_addr};
use image_provenance::embed::{embed, read_jpeg_comment, read_png_marker};
use image_provenance::pipeline::{
    anchor_memo, combined_hash, content_type, decode_image, decode_payload, finish_request,
    format_mock_proof, generate_witness_now, mock_proof, start_request, PipelineError,
};
use image_provenance::embed::EmbedError;
use image_provenance::witness::{encode, WitnessError};

fn solid_red_png(width: u32, height: u32) -> Vec<u8> {
    let mut out = Vec::new();
    {
        let mut enc = png::Encoder::new(&mut out, width, height);
        enc.set_color(png::ColorType::Rgb);
        enc.set_depth(png::BitDepth::Eight);
        let mut w = enc.write_header().unwrap();
        let data: Vec<u8> = (0..width * height).flat_map(|_| [255u8, 0, 0]).collect();
        w.write_image_data(&data).unwrap();
    }
    out
}

#[test]
fn combined_hash_layout() {
    let h = combined_hash([0x12, 0x34, 0x56, 0x78, 0x9a, 0xbc, 0xde, 0xf0], "dall-e", "dalle", 10, 250);
    assert_eq!(h, "123456789abcdef0:dall-e:dalle:10:250");
    let z = combined_hash([0; 8], "", "", 0, u32::MAX);
    assert_eq!(z, "0000000000000000:::0:4294967295");
}

#[test]
fn anchor_memo_joins_hash_and_proof() {
    assert_eq!(anchor_memo("h", "p"), "h|p");
}

#[test]
fn mock_proof_shape() {
    assert_eq!(format_mock_proof("id", "2024-01-01T00:00:00+00:00"), "MOCK_PROOF:id:2024-01-01T00:00:00+00:00");
    let p = mock_proof("anything");
    assert!(p.starts_with("MOCK_PROOF:"));
    let rest = &p["MOCK_PROOF:".len()..];
    assert_eq!(rest.as_bytes()[36], b':');
    assert_ne!(mock_proof("anything")[11..47], p[11..47]);
}

#[test]
fn base64_payload_is_decoded() {
    assert_eq!(decode_payload("aGVsbG8=").unwrap(), b"hello".to_vec());
    assert_eq!(decode_payload("not base64!"), Err(PipelineError::InvalidBase64));
}

#[test]
fn non_image_bytes_fail_to_decode() {
    assert!(matches!(decode_image(b"plain text, no image"), Err(PipelineError::DecodeError)));
    assert!(decode_image(&solid_red_png(2, 2)).is_ok());
}

#[test]
fn content_type_by_signature() {
    assert_eq!(content_type(&solid_red_png(1, 1)), "image/png");
    assert_eq!(content_type(&[0xFF, 0xD8, 0xFF, 0xE0]), "image/jpeg");
    assert_eq!(content_type(b"text"), "application/octet-stream");
}

#[test]
fn witness_now_uses_current_time() {
    let (w, c) = generate_witness_now(b"img", [1; 8], "dalle").unwrap();
    assert!(w.timestamp > 1_700_000_000);
    assert_eq!(c.len(), 32);
}

#[test]
fn red_square_scenario() {
    let image = solid_red_png(2, 2);
    assert!(decode_image(&image).is_ok());
    let fingerprint = [0x9c, 0x00, 0x00, 0x00, 0x00, 0x00, 0x00, 0x00];
    let first = encode(&image, fingerprint, "dalle", 1_700_000_000).unwrap();
    let second = encode(&image, fingerprint, "dalle", 1_700_000_000).unwrap();
    assert_eq!(first, second);
    assert_eq!(first.1.len(), 32);
    let out = embed(&image, b"abc123|dalle").unwrap();
    assert_eq!(read_png_marker(&out).unwrap(), b"abc123|dalle".to_vec());
}

#[test]
fn config_defaults() {
    assert_eq!(default_server_addr(), "127.0.0.1:8080");
    assert_eq!(default_log_level(), "info");
    assert_eq!(bind_address("8080"), "0.0.0.0:8080");
}

#[test]
fn error_status_by_stage() {
    assert_eq!(PipelineError::InvalidBase64.status_code(), 400);
    assert_eq!(PipelineError::DecodeError.status_code(), 400);
    assert_eq!(PipelineError::Witness(WitnessError::InvalidTimestamp).status_code(), 400);
    assert_eq!(PipelineError::Embed(EmbedError::UnsupportedFormat).status_code(), 400);
    assert_eq!(PipelineError::Embed(EmbedError::InvalidFormat).status_code(), 400);
    assert_eq!(PipelineError::Embed(EmbedError::EncodeError).status_code(), 500);
    assert_eq!(PipelineError::ProofGenerationError("backend".to_string()).status_code(), 500);
    assert_eq!(PipelineError::AnchoringError("ledger".to_string()).status_code(), 500);
}

const RED_2X2_PNG: [u8; 73] = [
    0x89, 0x50, 0x4e, 0x47, 0x0d, 0x0a, 0x1a, 0x0a, 0x00, 0x00, 0x00, 0x0d, 0x49, 0x48, 0x44, 0x52,
    0x00, 0x00, 0x00, 0x02, 0x00, 0x00, 0x00, 0x02, 0x08, 0x02, 0x00, 0x00, 0x00, 0xfd, 0xd4, 0x9a,
    0x73, 0x00, 0x00, 0x00, 0x10, 0x49, 0x44, 0x41, 0x54, 0x78, 0x9c, 0x63, 0xf8, 0xcf, 0xc0, 0x00,
    0x44, 0x0c, 0x10, 0x0a, 0x00, 0x1f, 0xee, 0x03, 0xfd, 0x8b, 0x5f, 0x14, 0xd4, 0x00, 0x00, 0x00,
    0x00, 0x49, 0x45, 0x4e, 0x44, 0xae, 0x42, 0x60, 0x82,
];

#[test]
fn red_square_commitment_is_fixed() {
    assert!(decode_image(&RED_2X2_PNG).is_ok());
    let fingerprint = [0x9c, 0x00, 0x00, 0x00, 0x00, 0x00, 0x00, 0x00];
    let (_, c) = encode(&RED_2X2_PNG, fingerprint, "dalle", 1_700_000_000).unwrap();
    assert_eq!(
        hex::encode(c),
        "84b38a105696cb74fbda284890047d83bd81c5aad200374af8b8c4e6816d6aff"
    );
    let out = embed(&RED_2X2_PNG, b"abc123|dalle").unwrap();
    assert_eq!(read_png_marker(&out).unwrap(), b"abc123|dalle".to_vec());
}

#[test]
fn request_starts_from_base64() {
    let text = base64::Engine::encode(&base64::engine::general_purpose::STANDARD, RED_2X2_PNG);
    let (bytes, _) = start_request(&text).unwrap();
    assert_eq!(bytes, RED_2X2_PNG.to_vec());
    assert!(matches!(start_request("%%%"), Err(PipelineError::InvalidBase64)));
    let not_image = base64::Engine::encode(&base64::engine::general_purpose::STANDARD, b"hello");
    assert!(matches!(start_request(&not_image), Err(PipelineError::DecodeError)));
}

#[test]
fn ledger_failure_embeds_nothing() {
    let r = finish_request(&RED_2X2_PNG, Err("rpc down".to_string()), "dalle");
    assert_eq!(r, Err(PipelineError::AnchoringError("rpc down".to_string())));
}

#[test]
fn ledger_success_embeds_transaction() {
    let (out, txn) = finish_request(&RED_2X2_PNG, Ok("sig123".to_string()), "dalle").unwrap();
    assert_eq!(txn, "sig123");
    assert_eq!(read_png_marker(&out).unwrap(), b"sig123|dalle".to_vec());
    let jpeg = vec![0xFF, 0xD8, 0xFF, 0xD9];
    let (out, _) = finish_request(&jpeg, Ok("sig".to_string()), "p").unwrap();
    assert_eq!(read_jpeg_comment(&out).unwrap(), b"0byte_txn:sig|p".to_vec());
    let r = finish_request(b"text", Ok("sig".to_string()), "p");
    assert_eq!(r, Err(PipelineError::Embed(EmbedError::UnsupportedFormat)));
}
