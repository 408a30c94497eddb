use image_provenance::witness::{
    encode, generate_witness, output_commitment, pad_platform, prepare_proof_inputs,
    split_to_fields, witness_bytes, WitnessError,
};
use sha2::{Digest, Sha256};

const IMAGE: &[u8] = b"not really an image, but bytes all the same";
const FINGERPRINT: [u8; 8] = [0x80, 0x01, 0x02, 0x03, 0xf0, 0x0f, 0xaa, 0x55];

fn expected_commitment(image: &[u8], fp: [u8; 8], platform: &[u8], ts: u64) -> Vec<u8> {
    let mut pre = Sha256::digest(image).to_vec();
    pre.extend_from_slice(&fp);
    let mut padded = [0u8; 32];
    let n = platform.len().min(32);
    padded[..n].copy_from_slice(&platform[..n]);
    pre.extend_from_slice(&padded);
    pre.extend_from_slice(&ts.to_be_bytes());
    Sha256::digest(&pre).to_vec()
}

#[test]
fn witness_fields_follow_the_inputs() {
    let w = generate_witness(IMAGE, FINGERPRINT, "dalle", 1_700_000_000).unwrap();
    let digest = Sha256::digest(IMAGE);
    for i in 0..4 {
        let chunk: [u8; 8] = digest[i * 8..i * 8 + 8].try_into().unwrap();
        assert_eq!(w.image_hash[i], u64::from_be_bytes(chunk));
    }
    assert_eq!(w.p_hash, 0x8001_0203_f00f_aa55);
    assert_eq!(w.platform_name, [0x6461_6c6c_6500_0000, 0, 0, 0]);
    assert_eq!(w.timestamp, 1_700_000_000);
}

#[test]
fn negative_timestamp_is_rejected() {
    assert_eq!(
        generate_witness(IMAGE, FINGERPRINT, "dalle", -1),
        Err(WitnessError::InvalidTimestamp)
    );
    assert!(matches!(encode(IMAGE, FINGERPRINT, "dalle", -5), Err(WitnessError::InvalidTimestamp)));
}

#[test]
fn zero_timestamp_is_accepted() {
    let w = generate_witness(IMAGE, FINGERPRINT, "dalle", 0).unwrap();
    assert_eq!(w.timestamp, 0);
}

#[test]
fn commitment_is_digest_of_concatenated_inputs() {
    let (_, c) = encode(IMAGE, FINGERPRINT, "dalle", 1_700_000_000).unwrap();
    assert_eq!(c, expected_commitment(IMAGE, FINGERPRINT, b"dalle", 1_700_000_000));
    assert_eq!(c.len(), 32);
}

#[test]
fn encoding_twice_gives_identical_output() {
    let a = encode(IMAGE, FINGERPRINT, "midjourney", 42).unwrap();
    let b = encode(IMAGE, FINGERPRINT, "midjourney", 42).unwrap();
    assert_eq!(a, b);
}

#[test]
fn commitment_changes_with_each_input() {
    let (_, base) = encode(IMAGE, FINGERPRINT, "dalle", 7).unwrap();
    let (_, c1) = encode(b"other", FINGERPRINT, "dalle", 7).unwrap();
    let (_, c2) = encode(IMAGE, [0; 8], "dalle", 7).unwrap();
    let (_, c3) = encode(IMAGE, FINGERPRINT, "dallf", 7).unwrap();
    let (_, c4) = encode(IMAGE, FINGERPRINT, "dalle", 8).unwrap();
    for c in [c1, c2, c3, c4] {
        assert_ne!(c, base);
    }
}

#[test]
fn witness_bytes_write_fields_back() {
    let w = generate_witness(IMAGE, FINGERPRINT, "dalle", 1_700_000_000).unwrap();
    let b = witness_bytes(&w);
    assert_eq!(b.len(), 80);
    assert_eq!(&b[..32], Sha256::digest(IMAGE).as_slice());
    assert_eq!(&b[32..40], &FINGERPRINT);
    assert_eq!(&b[40..45], b"dalle");
    assert!(b[45..72].iter().all(|&x| x == 0));
    assert_eq!(&b[72..80], &1_700_000_000u64.to_be_bytes());
    assert_eq!(output_commitment(&w), Sha256::digest(&b).to_vec());
}

#[test]
fn short_platform_is_zero_padded() {
    let p = pad_platform("dalle");
    assert_eq!(p.len(), 32);
    assert_eq!(&p[..5], b"dalle");
    assert!(p[5..].iter().all(|&x| x == 0));
    assert_eq!(pad_platform(""), vec![0u8; 32]);
}

#[test]
fn long_platform_is_truncated() {
    let name = "a-platform-name-that-is-longer-than-thirty-two-bytes";
    let p = pad_platform(name);
    assert_eq!(p, name.as_bytes()[..32].to_vec());
    assert_eq!(pad_platform(name), p);
}

#[test]
fn exact_platform_is_unchanged() {
    let name = "0123456789abcdef0123456789ABCDEF";
    assert_eq!(pad_platform(name), name.as_bytes().to_vec());
}

#[test]
fn fields_are_big_endian_chunks() {
    let bytes: Vec<u8> = (0u8..32).collect();
    assert_eq!(
        split_to_fields(&bytes),
        [0x0001020304050607, 0x08090a0b0c0d0e0f, 0x1011121314151617, 0x18191a1b1c1d1e1f]
    );
}

#[test]
fn proof_inputs_are_fields_then_zeros() {
    let w = generate_witness(IMAGE, FINGERPRINT, "dalle", 99).unwrap();
    let v = prepare_proof_inputs(w);
    assert_eq!(v.len(), 15);
    assert_eq!(&v[..4], &w.image_hash);
    assert_eq!(v[4], w.p_hash);
    assert_eq!(&v[5..9], &w.platform_name);
    assert_eq!(v[9], 99);
    assert_eq!(&v[10..], &[0, 0, 0, 0, 0]);
}

#[test]
fn fields_use_first_thirty_two_bytes() {
    let bytes: Vec<u8> = (0u8..40).collect();
    assert_eq!(split_to_fields(&bytes), split_to_fields(&bytes[..32]));
    let mut back = Vec::new();
    for f in split_to_fields(&bytes) {
        back.extend_from_slice(&f.to_be_bytes());
    }
    assert_eq!(back, bytes[..32].to_vec());
}
