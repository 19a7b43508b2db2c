//! Base64 encoding and the PNG data-URI payload format.
//!
//! The base64 encoding itself is done by an outside engine and is only
//! named here; what the library adds — and proves — is the payload
//! format wrapped around it.

use vstd::prelude::*;
use vstd::string::StringExecFns;
use base64::Engine;

verus! {

/// The standard padded base64 encoding of `data`, as the outside engine
/// computes it.
pub uninterp spec fn b64_of(data: Seq<u8>) -> Seq<char>;

/// Relies on base64's `Engine::encode` with the standard padded
/// alphabet: the encoding depends on the input bytes alone, and the
/// padded output holds four characters for every started three-byte
/// group. The length bound keeps the engine's output-size computation
/// from overflowing.
#[verifier::external_body]
pub fn b64_encode(data: &Vec<u8>) -> (r: String)
    requires
        data@.len() <= usize::MAX / 8,
    ensures
        r@ == b64_of(data@),
        r@.len() == 4 * ((data@.len() + 2) / 3),
{
    base64::engine::general_purpose::STANDARD.encode(data)
}

/// A base64 payload wrapped as a PNG data URI.
pub open spec fn spec_png_data_uri(b64: Seq<char>) -> Seq<char> {
    "data:image/png;base64,"@ + b64
}

/// The data-URI payload carrying the PNG bytes `png`.
pub open spec fn spec_data_uri_of(png: Seq<u8>) -> Seq<char> {
    spec_png_data_uri(b64_of(png))
}

/// Prefixes an already base64-encoded payload with the PNG data-URI
/// scheme tag.
pub fn format_png_data_uri(base64_str: &String) -> (r: String)
    ensures
        r@ == spec_png_data_uri(base64_str@),
{
    let mut r = String::from_str("data:image/png;base64,");
    r.append(base64_str.as_str());
    r
}

/// Encodes PNG bytes as a base64 data-URI payload.
pub fn encode_png_payload(png: &Vec<u8>) -> (r: String)
    requires
        png@.len() <= usize::MAX / 8,
    ensures
        r@ == spec_data_uri_of(png@),
{
    let b = b64_encode(png);
    format_png_data_uri(&b)
}

} // verus!
