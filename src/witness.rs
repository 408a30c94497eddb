//! The canonical witness: a digest of the raw image bytes, the fingerprint,
//! the platform name and a timestamp, packed into fixed-width fields, and the
//! commitment that binds them.

use sha2::Digest;
use vstd::prelude::*;
use vstd::string::StringSliceAdditionalSpecFns;

use crate::bytes::{
    append_bytes, be_bytes, be_value, lemma_be_bytes_of_value, lemma_be_value_bound, pow256,
    read_be, u64_to_be,
};

verus! {

/// Width in bytes of the padded platform identifier.
pub const PLATFORM_WIDTH: usize = 32;

/// What SHA-256 gives for `data`.
pub uninterp spec fn sha256_of(data: Seq<u8>) -> Seq<u8>;

/// Relies on `sha2::Sha256::digest`: the SHA-256 digest of `data`, 32 bytes,
/// which depends on the bytes of `data` alone.
#[verifier::external_body]
fn sha256(data: &[u8]) -> (r: Vec<u8>)
    ensures
        r@ == sha256_of(data@),
        r@.len() == 32,
{
    sha2::Sha256::digest(data).to_vec()
}

/// The platform name in exactly 32 bytes: cut after 32, padded with zeros.
pub open spec fn padded_platform(name: Seq<u8>) -> Seq<u8> {
    Seq::new(PLATFORM_WIDTH as nat, |i: int| if i < name.len() { name[i] } else { 0u8 })
}

/// Four fields, each the big-endian value of eight consecutive bytes.
pub open spec fn chunk_fields(s: Seq<u8>) -> Seq<u64> {
    Seq::new(4, |i: int| be_value(s.subrange(8 * i, 8 * i + 8)) as u64)
}

/// The fixed-width fields handed to the proving backend, in this order.
#[derive(Clone, Copy, Debug, PartialEq, Eq)]
pub struct Witness {
    pub image_hash: [u64; 4],
    pub p_hash: u64,
    pub platform_name: [u64; 4],
    pub timestamp: u64,
}

/// Why a witness could not be built.
#[derive(Clone, Copy, Debug, PartialEq, Eq)]
pub enum WitnessError {
    /// The timestamp lies before the Unix epoch.
    InvalidTimestamp,
}

/// `w` is the witness for these inputs.
pub open spec fn is_witness_for(
    w: Witness,
    image: Seq<u8>,
    fingerprint: Seq<u8>,
    platform: Seq<u8>,
    timestamp: int,
) -> bool {
    &&& w.image_hash@ == chunk_fields(sha256_of(image))
    &&& w.p_hash as nat == be_value(fingerprint)
    &&& w.platform_name@ == chunk_fields(padded_platform(platform))
    &&& w.timestamp as int == timestamp
}

/// The bytes a witness stands for: each field written back in eight
/// big-endian bytes, in field order.
pub open spec fn witness_bytes_of(w: Witness) -> Seq<u8> {
    be_bytes(w.image_hash[0] as nat, 8) + be_bytes(w.image_hash[1] as nat, 8) + be_bytes(
        w.image_hash[2] as nat,
        8,
    ) + be_bytes(w.image_hash[3] as nat, 8) + be_bytes(w.p_hash as nat, 8) + be_bytes(
        w.platform_name[0] as nat,
        8,
    ) + be_bytes(w.platform_name[1] as nat, 8) + be_bytes(w.platform_name[2] as nat, 8)
        + be_bytes(w.platform_name[3] as nat, 8) + be_bytes(w.timestamp as nat, 8)
}

/// The bytes the commitment is taken over:
/// `digest ‖ fingerprint ‖ platform(32) ‖ timestamp(8, big-endian)`.
pub open spec fn commitment_preimage(
    image: Seq<u8>,
    fingerprint: Seq<u8>,
    platform: Seq<u8>,
    timestamp: nat,
) -> Seq<u8> {
    sha256_of(image) + fingerprint + padded_platform(platform) + be_bytes(timestamp, 8)
}

/// The platform name's bytes in a 32-byte buffer: truncated when longer,
/// zero-padded when shorter.
pub fn pad_platform(platform: &str) -> (r: Vec<u8>)
    ensures
        r@ == padded_platform(platform.spec_bytes()),
{
    let name = platform.as_bytes();
    let mut r: Vec<u8> = Vec::new();
    let mut i: usize = 0;
    while i < PLATFORM_WIDTH
        invariant
            i <= PLATFORM_WIDTH,
            name@ == platform.spec_bytes(),
            r@ == padded_platform(name@).subrange(0, i as int),
        decreases PLATFORM_WIDTH - i,
    {
        if i < name.len() {
            r.push(name[i]);
        } else {
            r.push(0u8);
        }
        i = i + 1;
        assert(r@ =~= padded_platform(name@).subrange(0, i as int));
    }
    assert(r@ =~= padded_platform(name@));
    r
}

/// Splits the first 32 bytes into four big-endian 64-bit fields.
pub fn split_to_fields(bytes: &[u8]) -> (r: [u64; 4])
    requires
        bytes@.len() >= 32,
    ensures
        r@ == chunk_fields(bytes@),
        be_bytes(r[0] as nat, 8) + be_bytes(r[1] as nat, 8) + be_bytes(r[2] as nat, 8) + be_bytes(
            r[3] as nat,
            8,
        ) == bytes@.subrange(0, 32),
{
    let mut r = [0u64; 4];
    let mut i: usize = 0;
    while i < 4
        invariant
            i <= 4,
            bytes@.len() >= 32,
            forall|k: int| 0 <= k < i ==> r@[k] == chunk_fields(bytes@)[k],
        decreases 4 - i,
    {
        let v = read_be(bytes, 8 * i, 8);
        r[i] = v;
        i = i + 1;
    }
    assert(r@ =~= chunk_fields(bytes@));
    proof {
        let head = bytes@.subrange(0, 32);
        assert(head.subrange(0, 8) =~= bytes@.subrange(0, 8));
        assert(head.subrange(8, 16) =~= bytes@.subrange(8, 16));
        assert(head.subrange(16, 24) =~= bytes@.subrange(16, 24));
        assert(head.subrange(24, 32) =~= bytes@.subrange(24, 32));
        assert(chunk_fields(head) =~= chunk_fields(bytes@));
        lemma_fields_round_trip(head);
    }
    r
}

/// Builds the witness for an image's raw bytes, its fingerprint, the name of
/// the platform that produced it and the time in Unix seconds.
pub fn generate_witness(
    image_bytes: &[u8],
    fingerprint: [u8; 8],
    platform: &str,
    timestamp: i64,
) -> (r: Result<Witness, WitnessError>)
    ensures
        timestamp < 0 ==> r == Err::<Witness, WitnessError>(WitnessError::InvalidTimestamp),
        timestamp >= 0 ==> r is Ok && is_witness_for(
            r->Ok_0,
            image_bytes@,
            fingerprint@,
            platform.spec_bytes(),
            timestamp as int,
        ),
        timestamp >= 0 ==> sha256_of(image_bytes@).len() == 32,
{
    if timestamp < 0 {
        return Err(WitnessError::InvalidTimestamp);
    }
    let digest = sha256(image_bytes);
    let image_hash = split_to_fields(digest.as_slice());
    let p_hash = read_be(fingerprint.as_slice(), 0, 8);
    assert(fingerprint@.subrange(0, 8) =~= fingerprint@);
    let padded = pad_platform(platform);
    let platform_name = split_to_fields(padded.as_slice());
    Ok(Witness { image_hash, p_hash, platform_name, timestamp: timestamp as u64 })
}

/// Eight bytes survive being read as a 64-bit field and written back.
proof fn lemma_field_round_trip(s: Seq<u8>)
    requires
        s.len() == 8,
    ensures
        be_bytes((be_value(s) as u64) as nat, 8) == s,
{
    lemma_be_value_bound(s);
    reveal_with_fuel(pow256, 9);
    lemma_be_bytes_of_value(s);
}

/// Thirty-two bytes survive being split into four fields and written back.
proof fn lemma_fields_round_trip(s: Seq<u8>)
    requires
        s.len() == 32,
    ensures
        be_bytes(chunk_fields(s)[0] as nat, 8) + be_bytes(chunk_fields(s)[1] as nat, 8) + be_bytes(
            chunk_fields(s)[2] as nat,
            8,
        ) + be_bytes(chunk_fields(s)[3] as nat, 8) == s,
{
    lemma_field_round_trip(s.subrange(0, 8));
    lemma_field_round_trip(s.subrange(8, 16));
    lemma_field_round_trip(s.subrange(16, 24));
    lemma_field_round_trip(s.subrange(24, 32));
    assert(s.subrange(0, 8) + s.subrange(8, 16) + s.subrange(16, 24) + s.subrange(24, 32) =~= s);
}

/// The witness's fields written back as bytes are the commitment's preimage.
pub proof fn lemma_witness_bytes_are_preimage(
    w: Witness,
    image: Seq<u8>,
    fingerprint: Seq<u8>,
    platform: Seq<u8>,
    timestamp: nat,
)
    requires
        fingerprint.len() == 8,
        sha256_of(image).len() == 32,
        is_witness_for(w, image, fingerprint, platform, timestamp as int),
    ensures
        witness_bytes_of(w) == commitment_preimage(image, fingerprint, platform, timestamp),
{
    let d = sha256_of(image);
    let p = padded_platform(platform);
    lemma_fields_round_trip(d);
    lemma_fields_round_trip(p);
    lemma_field_round_trip(fingerprint);
    assert(w.image_hash[0] == chunk_fields(d)[0] && w.image_hash[1] == chunk_fields(d)[1]
        && w.image_hash[2] == chunk_fields(d)[2] && w.image_hash[3] == chunk_fields(d)[3]);
    assert(w.platform_name[0] == chunk_fields(p)[0] && w.platform_name[1] == chunk_fields(p)[1]
        && w.platform_name[2] == chunk_fields(p)[2] && w.platform_name[3] == chunk_fields(p)[3]);
    assert(witness_bytes_of(w) =~= commitment_preimage(image, fingerprint, platform, timestamp));
}

/// Writes each field of the witness in eight big-endian bytes, in field order.
pub fn witness_bytes(w: &Witness) -> (r: Vec<u8>)
    ensures
        r@ == witness_bytes_of(*w),
{
    let mut r: Vec<u8> = Vec::new();
    append_bytes(&mut r, u64_to_be(w.image_hash[0], 8).as_slice());
    append_bytes(&mut r, u64_to_be(w.image_hash[1], 8).as_slice());
    append_bytes(&mut r, u64_to_be(w.image_hash[2], 8).as_slice());
    append_bytes(&mut r, u64_to_be(w.image_hash[3], 8).as_slice());
    append_bytes(&mut r, u64_to_be(w.p_hash, 8).as_slice());
    append_bytes(&mut r, u64_to_be(w.platform_name[0], 8).as_slice());
    append_bytes(&mut r, u64_to_be(w.platform_name[1], 8).as_slice());
    append_bytes(&mut r, u64_to_be(w.platform_name[2], 8).as_slice());
    append_bytes(&mut r, u64_to_be(w.platform_name[3], 8).as_slice());
    append_bytes(&mut r, u64_to_be(w.timestamp, 8).as_slice());
    assert(r@ =~= witness_bytes_of(*w));
    r
}

/// The commitment to a witness: SHA-256 over its fields written as bytes.
pub fn output_commitment(w: &Witness) -> (r: Vec<u8>)
    ensures
        r@ == sha256_of(witness_bytes_of(*w)),
        r@.len() == 32,
{
    let b = witness_bytes(w);
    sha256(b.as_slice())
}

/// Builds the witness and its commitment. The commitment is SHA-256 over
/// `sha256(image) ‖ fingerprint ‖ platform(32) ‖ timestamp(8, big-endian)`.
pub fn encode(
    image_bytes: &[u8],
    fingerprint: [u8; 8],
    platform: &str,
    timestamp: i64,
) -> (r: Result<(Witness, Vec<u8>), WitnessError>)
    ensures
        timestamp < 0 ==> r == Err::<(Witness, Vec<u8>), WitnessError>(WitnessError::InvalidTimestamp),
        timestamp >= 0 ==> r is Ok && encodes(
            r->Ok_0.0,
            r->Ok_0.1@,
            image_bytes@,
            fingerprint@,
            platform.spec_bytes(),
            timestamp as nat,
        ),
{
    match generate_witness(image_bytes, fingerprint, platform, timestamp) {
        Err(e) => Err(e),
        Ok(w) => {
            let c = output_commitment(&w);
            proof {
                lemma_witness_bytes_are_preimage(
                    w,
                    image_bytes@,
                    fingerprint@,
                    platform.spec_bytes(),
                    timestamp as nat,
                );
            }
            Ok((w, c))
        },
    }
}

/// `w` and `c` are the witness and commitment for these inputs.
pub open spec fn encodes(
    w: Witness,
    c: Seq<u8>,
    image: Seq<u8>,
    fingerprint: Seq<u8>,
    platform: Seq<u8>,
    timestamp: nat,
) -> bool {
    &&& is_witness_for(w, image, fingerprint, platform, timestamp as int)
    &&& c == sha256_of(commitment_preimage(image, fingerprint, platform, timestamp))
}

/// The field vector handed to the prover: the ten witness fields in order,
/// then five zeros where the circuit places its public outputs (four for the
/// output hash, one for the nullifier).
pub fn prepare_proof_inputs(witness: Witness) -> (r: Vec<u64>)
    ensures
        r@ == witness.image_hash@ + seq![witness.p_hash] + witness.platform_name@ + seq![
            witness.timestamp,
            0u64,
            0u64,
            0u64,
            0u64,
            0u64,
        ],
{
    let mut r: Vec<u64> = Vec::new();
    r.push(witness.image_hash[0]);
    r.push(witness.image_hash[1]);
    r.push(witness.image_hash[2]);
    r.push(witness.image_hash[3]);
    r.push(witness.p_hash);
    r.push(witness.platform_name[0]);
    r.push(witness.platform_name[1]);
    r.push(witness.platform_name[2]);
    r.push(witness.platform_name[3]);
    r.push(witness.timestamp);
    let mut i: usize = 0;
    while i < 5
        invariant
            i <= 5,
            r@.len() == 10 + i,
            forall|k: int|
                0 <= k < 10 ==> #[trigger] r@[k] == (witness.image_hash@ + seq![witness.p_hash]
                    + witness.platform_name@ + seq![witness.timestamp])[k],
            forall|k: int| 10 <= k < 10 + i ==> #[trigger] r@[k] == 0u64,
        decreases 5 - i,
    {
        r.push(0u64);
        i = i + 1;
    }
    assert(r@ =~= witness.image_hash@ + seq![witness.p_hash] + witness.platform_name@ + seq![
        witness.timestamp,
        0u64,
        0u64,
        0u64,
        0u64,
        0u64,
    ]);
    r
}

/// Encoding is deterministic: two encodings of the same image bytes,
/// fingerprint, platform name and timestamp agree in every field and in the
/// commitment.
pub proof fn encoding_is_deterministic(
    w1: Witness,
    c1: Seq<u8>,
    w2: Witness,
    c2: Seq<u8>,
    image: Seq<u8>,
    fingerprint: Seq<u8>,
    platform: Seq<u8>,
    timestamp: nat,
)
    requires
        encodes(w1, c1, image, fingerprint, platform, timestamp),
        encodes(w2, c2, image, fingerprint, platform, timestamp),
    ensures
        w1 == w2,
        c1 == c2,
{
    assert(w1.image_hash =~= w2.image_hash);
    assert(w1.platform_name =~= w2.platform_name);
}

/// A platform name longer than 32 bytes is cut to its first 32; a shorter one
/// is followed by zeros up to 32; one of exactly 32 bytes is kept as it is.
pub proof fn platform_padding(name: Seq<u8>)
    ensures
        padded_platform(name).len() == 32,
        name.len() >= 32 ==> padded_platform(name) == name.subrange(0, 32),
        name.len() < 32 ==> padded_platform(name) == name + Seq::new(
            (32 - name.len()) as nat,
            |i: int| 0u8,
        ),
        name.len() == 32 ==> padded_platform(name) == name,
{
    if name.len() >= 32 {
        assert(padded_platform(name) =~= name.subrange(0, 32));
    } else {
        assert(padded_platform(name) =~= name + Seq::new((32 - name.len()) as nat, |i: int| 0u8));
    }
    if name.len() == 32 {
        assert(name.subrange(0, 32) =~= name);
    }
}

} // verus!
