//! Request and response shapes of the attestation service.

use vstd::prelude::*;

verus! {

/// An attestation request: the image in base64 and what generated it.
#[derive(Clone, Debug)]
pub struct GenerateRequest {
    pub image_bytes: String,
    pub model_name: String,
    pub platform_name: String,
    pub input_token_count: u32,
    pub output_token_count: u32,
}

/// An attestation response: the embedded image in base64 and the ledger
/// transaction that anchors it.
#[derive(Clone, Debug)]
pub struct GenerateResponse {
    pub image_bytes: String,
    pub transaction_id: String,
}

/// The short form of a request: image in base64, platform and model.
#[derive(Clone, Debug)]
pub struct GenerateInput {
    pub image: String,
    pub platform: String,
    pub model: String,
}

} // verus!
