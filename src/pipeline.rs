//! The stages of one attestation request that this library decides: reading
//! the uploaded bytes, naming what is anchored, the stand-in proof, and the
//! response's content type. The proving backend and the ledger are reached
//! from outside the library; their answers come back in as plain values.

use base64::Engine;
use vstd::prelude::*;
use vstd::string::StringSliceAdditionalSpecFns;
use vstd::utf8::encode_utf8;

use crate::embed::{embed_metadata, guess_format, kind_of, metadata_embedding_of, EmbedError, ImageKind};
use crate::fingerprint::{hex_encode, hex_text};
use crate::witness::{encodes, encode, WitnessError, Witness};

verus! {

#[verifier::external_type_specification]
#[verifier::external_body]
pub struct ExDynamicImage(image::DynamicImage);

#[verifier::external_type_specification]
#[verifier::external_body]
pub struct ExImageError(image::ImageError);

/// Why a request failed, by stage.
#[derive(Clone, Debug, PartialEq, Eq)]
pub enum PipelineError {
    /// The uploaded image is not valid base64.
    InvalidBase64,
    /// The bytes cannot be interpreted as an image.
    DecodeError,
    /// The witness inputs are malformed.
    Witness(WitnessError),
    /// The proving backend failed; its message is passed on unchanged.
    ProofGenerationError(String),
    /// The ledger refused or lost the transaction; its message is passed on
    /// unchanged.
    AnchoringError(String),
    /// The marker could not be embedded.
    Embed(EmbedError),
}

impl PipelineError {
    /// Whether the caller's input is at fault (a 4xx-class failure), rather
    /// than an outside collaborator or the encoder (a 5xx-class failure).
    pub open spec fn is_client_error_spec(&self) -> bool {
        match self {
            PipelineError::InvalidBase64 => true,
            PipelineError::DecodeError => true,
            PipelineError::Witness(_) => true,
            PipelineError::ProofGenerationError(_) => false,
            PipelineError::AnchoringError(_) => false,
            PipelineError::Embed(e) => e != EmbedError::EncodeError,
        }
    }

    /// The HTTP status that reports this failure: 400 when the input is at
    /// fault, 500 otherwise.
    pub fn status_code(&self) -> (r: u16)
        ensures
            self.is_client_error_spec() ==> r == 400,
            !self.is_client_error_spec() ==> r == 500,
    {
        match self {
            PipelineError::InvalidBase64 => 400,
            PipelineError::DecodeError => 400,
            PipelineError::Witness(_) => 400,
            PipelineError::ProofGenerationError(_) => 500,
            PipelineError::AnchoringError(_) => 500,
            PipelineError::Embed(EmbedError::EncodeError) => 500,
            PipelineError::Embed(_) => 400,
        }
    }
}

/// What standard base64 decoding gives for a text, or nothing when the text
/// is not valid base64.
pub uninterp spec fn base64_decoded_of(text: Seq<u8>) -> Option<Seq<u8>>;

/// Relies on `base64::engine::general_purpose::STANDARD.decode`: the bytes a
/// standard-alphabet, padded base64 text stands for; the outcome depends on
/// the text alone.
#[verifier::external_body]
fn base64_decode(text: &str) -> (r: Option<Vec<u8>>)
    ensures
        r is None <==> base64_decoded_of(text.spec_bytes()) is None,
        r matches Some(v) ==> base64_decoded_of(text.spec_bytes()) == Some(v@),
{
    base64::engine::general_purpose::STANDARD.decode(text).ok()
}

/// Decodes the uploaded image from its base64 text.
pub fn decode_payload(image_base64: &str) -> (r: Result<Vec<u8>, PipelineError>)
    ensures
        r matches Ok(v) ==> base64_decoded_of(image_base64.spec_bytes()) == Some(v@),
        r is Err <==> base64_decoded_of(image_base64.spec_bytes()) is None,
        r matches Err(e) ==> e == PipelineError::InvalidBase64,
{
    match base64_decode(image_base64) {
        Some(v) => Ok(v),
        None => Err(PipelineError::InvalidBase64),
    }
}

/// Relies on `image::load_from_memory`: it guesses the format and decodes.
/// Nothing is promised of the outcome: decoding and detection hooks that any
/// code in the process may register take part in it.
#[verifier::external_body]
pub fn load_image(image_bytes: &[u8]) -> (r: Result<image::DynamicImage, image::ImageError>) {
    image::load_from_memory(image_bytes)
}

/// Decodes the image, reporting a failure as `DecodeError`.
pub fn decode_image(image_bytes: &[u8]) -> (r: Result<image::DynamicImage, PipelineError>)
    ensures
        r matches Err(e) ==> e == PipelineError::DecodeError,
{
    match load_image(image_bytes) {
        Ok(img) => Ok(img),
        Err(_) => Err(PipelineError::DecodeError),
    }
}

/// The decimal digit for `n < 10`.
pub open spec fn decimal_digit(n: nat) -> char {
    seq!['0', '1', '2', '3', '4', '5', '6', '7', '8', '9'][n as int]
}

/// The decimal form of `n`, with no leading zeros.
pub open spec fn decimal_text(n: nat) -> Seq<char>
    decreases n,
{
    if n < 10 {
        seq![decimal_digit(n)]
    } else {
        decimal_text(n / 10) + seq![decimal_digit(n % 10)]
    }
}

/// Relies on `u32`'s `Display` through `ToString::to_string`: the decimal
/// form of the number, with no sign and no leading zeros.
#[verifier::external_body]
fn decimal_string(n: u32) -> (r: String)
    ensures
        r@ == decimal_text(n as nat),
{
    n.to_string()
}

/// The text that is proved and anchored for a generated image:
/// `<fingerprint hex>:<model>:<platform>:<input tokens>:<output tokens>`.
pub open spec fn combined_hash_of(
    fingerprint: Seq<u8>,
    model: Seq<char>,
    platform: Seq<char>,
    input_tokens: nat,
    output_tokens: nat,
) -> Seq<char> {
    hex_text(fingerprint) + seq![':'] + model + seq![':'] + platform + seq![':'] + decimal_text(
        input_tokens,
    ) + seq![':'] + decimal_text(output_tokens)
}

/// Builds the text that is proved and anchored for a generated image.
pub fn combined_hash(
    fingerprint: [u8; 8],
    model_name: &str,
    platform_name: &str,
    input_token_count: u32,
    output_token_count: u32,
) -> (r: String)
    ensures
        r@ == combined_hash_of(
            fingerprint@,
            model_name@,
            platform_name@,
            input_token_count as nat,
            output_token_count as nat,
        ),
{
    proof {
        reveal_strlit(":");
    }
    let mut r = hex_encode(fingerprint.as_slice());
    r.append(":");
    r.append(model_name);
    r.append(":");
    r.append(platform_name);
    r.append(":");
    let a = decimal_string(input_token_count);
    r.append(a.as_str());
    r.append(":");
    let b = decimal_string(output_token_count);
    r.append(b.as_str());
    assert(r@ =~= combined_hash_of(
        fingerprint@,
        model_name@,
        platform_name@,
        input_token_count as nat,
        output_token_count as nat,
    ));
    r
}

/// The memo recorded on the ledger: `<hash>|<proof>`.
pub fn anchor_memo(hash: &str, proof: &str) -> (r: String)
    ensures
        r@ == hash@ + seq!['|'] + proof@,
{
    proof {
        reveal_strlit("|");
    }
    let mut r = String::from_str(hash);
    r.append("|");
    r.append(proof);
    r
}

/// The stand-in proof: `MOCK_PROOF:<id>:<timestamp>`.
pub open spec fn mock_proof_of(id: Seq<char>, timestamp: Seq<char>) -> Seq<char> {
    "MOCK_PROOF:"@ + id + seq![':'] + timestamp
}

/// Formats a stand-in proof from its identifier and time of issue.
pub fn format_mock_proof(id: &str, timestamp: &str) -> (r: String)
    ensures
        r@ == mock_proof_of(id@, timestamp@),
{
    proof {
        reveal_strlit(":");
    }
    let mut r = String::from_str("MOCK_PROOF:");
    r.append(id);
    r.append(":");
    r.append(timestamp);
    r
}

/// Relies on `uuid::Uuid::new_v4` and its `Display`: a fresh random
/// identifier in the 36-character hyphenated form.
#[verifier::external_body]
fn new_proof_id() -> (r: String)
    ensures
        r@.len() == 36,
{
    uuid::Uuid::new_v4().to_string()
}

/// Relies on `chrono::Utc::now` and `DateTime::to_rfc3339`: the current time
/// as RFC 3339 text.
#[verifier::external_body]
fn now_rfc3339() -> (r: String) {
    chrono::Utc::now().to_rfc3339()
}

/// A stand-in proof for a hash, which it does not read: a fresh identifier and the time of issue.
/// Whatever identifier and time come back, the result has the form
/// `MOCK_PROOF:<36-character id>:<time>`.
pub fn mock_proof(_hash: &str) -> (r: String)
    ensures
        exists|id: Seq<char>, ts: Seq<char>| id.len() == 36 && r@ == mock_proof_of(id, ts),
{
    let id = new_proof_id();
    let ts = now_rfc3339();
    format_mock_proof(id.as_str(), ts.as_str())
}

/// Relies on `chrono::Utc::now` and `DateTime::timestamp`: the current time
/// in Unix seconds.
#[verifier::external_body]
fn now_unix_seconds() -> (r: i64) {
    chrono::Utc::now().timestamp()
}

/// Builds the witness and commitment stamped with the current time. Whatever
/// time the clock gives, the result is the encoding for that time; a time
/// before the epoch would be refused with `InvalidTimestamp`, though the
/// clock itself does not hand one out.
pub fn generate_witness_now(
    image_bytes: &[u8],
    fingerprint: [u8; 8],
    platform: &str,
) -> (r: Result<(Witness, Vec<u8>), WitnessError>)
    ensures
        r matches Ok(p) ==> exists|t: nat|
            encodes(p.0, p.1@, image_bytes@, fingerprint@, platform.spec_bytes(), t),
        r matches Err(e) ==> e == WitnessError::InvalidTimestamp,
{
    let now = now_unix_seconds();
    encode(image_bytes, fingerprint, platform, now)
}

/// Reads the uploaded image: base64 text to bytes, then bytes to a decoded
/// image. The first failing step decides the error, and nothing else is
/// returned with it.
pub fn start_request(image_base64: &str) -> (r: Result<(Vec<u8>, image::DynamicImage), PipelineError>)
    ensures
        base64_decoded_of(image_base64.spec_bytes()) is None ==> r == Err::<
            (Vec<u8>, image::DynamicImage),
            PipelineError,
        >(PipelineError::InvalidBase64),
        base64_decoded_of(image_base64.spec_bytes()) is Some ==> (r matches Err(e) ==> e
            == PipelineError::DecodeError),
        r matches Ok(p) ==> base64_decoded_of(image_base64.spec_bytes()) == Some(p.0@),
{
    let bytes = decode_payload(image_base64)?;
    let image = decode_image(bytes.as_slice())?;
    Ok((bytes, image))
}

/// Ends a request once the ledger has answered: a ledger failure is passed
/// on as `AnchoringError` and nothing is embedded; a transaction id is
/// embedded with the platform name and returned beside the image.
pub fn finish_request(
    image_bytes: &[u8],
    anchored: Result<String, String>,
    platform_name: &str,
) -> (r: Result<(Vec<u8>, String), PipelineError>)
    ensures
        anchored matches Err(msg) ==> r == Err::<(Vec<u8>, String), PipelineError>(
            PipelineError::AnchoringError(msg),
        ),
        anchored matches Ok(txn) ==> match metadata_embedding_of(
            image_bytes@,
            encode_utf8(txn@),
            platform_name.spec_bytes(),
        ) {
            Ok(out) => (r matches Ok(p) && p.0@ == out && p.1@ == txn@),
            Err(e) => r == Err::<(Vec<u8>, String), PipelineError>(PipelineError::Embed(e)),
        },
{
    match anchored {
        Err(msg) => Err(PipelineError::AnchoringError(msg)),
        Ok(txn) => match embed_metadata(image_bytes, txn.as_str(), platform_name) {
            Ok(out) => Ok((out, txn)),
            Err(e) => Err(PipelineError::Embed(e)),
        },
    }
}

/// The content type of the response body, by the format its leading bytes
/// announce.
pub fn content_type(image_bytes: &[u8]) -> (r: &'static str)
    ensures
        kind_of(image_bytes@) == ImageKind::Png ==> r@ == "image/png"@,
        kind_of(image_bytes@) == ImageKind::Jpeg ==> r@ == "image/jpeg"@,
        kind_of(image_bytes@) == ImageKind::Unrecognized ==> r@ == "application/octet-stream"@,
{
    match guess_format(image_bytes) {
        ImageKind::Png => "image/png",
        ImageKind::Jpeg => "image/jpeg",
        ImageKind::Unrecognized => "application/octet-stream",
    }
}

} // verus!
