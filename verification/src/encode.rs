//! Base64 encoding of image bytes, for embedding an image inline: the
//! encoded bytes behind the fixed MIME data-URI prefix.

use vstd::prelude::*;
use base64::Engine;
use crate::form::data_uri_value;

verus! {

/// The base64 encoding (standard alphabet, padded) of a byte sequence.
pub uninterp spec fn base64_of(b: Seq<u8>) -> Seq<char>;

/// Relies on base64's `STANDARD` engine and its `Engine::encode`: the
/// result is a function of the input bytes alone, and the padded output has
/// four characters for every three bytes begun (so an empty input encodes
/// to an empty string).
#[verifier::external_body]
fn base64_encode(b: &Vec<u8>) -> (r: String)
    requires
        4 * b@.len() + 4 <= usize::MAX as nat,
    ensures
        r@ == base64_of(b@),
        r@.len() == 4 * ((b@.len() + 2) / 3),
{
    base64::engine::general_purpose::STANDARD.encode(b.as_slice())
}

/// Encodes raw image bytes as the data URI a request embeds inline: the
/// base64 encoding of the bytes, byte for byte behind the fixed prefix.
pub fn encode_image_data_uri(bytes: &Vec<u8>) -> (r: String)
    requires
        4 * bytes@.len() + 4 <= usize::MAX as nat,
    ensures
        r@ == "data:image/jpeg;base64,"@ + base64_of(bytes@),
{
    let encoded = base64_encode(bytes);
    data_uri_value(encoded.as_str())
}

} // verus!
