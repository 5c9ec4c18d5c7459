//! A captured screen as a data URL.
//!
//! The capture itself and its compression to JPEG are the caller's business.
//! This module turns the bytes of the JPEG image into the text that the
//! overlay window loads.

use base64::Engine;
use vstd::prelude::*;
use vstd::string::StringExecFns;

verus! {

/// The standard base64 text of `bytes`: the alphabet of RFC 4648, padded with
/// `=` to a multiple of four characters.
pub uninterp spec fn base64_standard(bytes: Seq<u8>) -> Seq<char>;

/// Whether an image of `len` bytes has a base64 text that fits in memory.
pub open spec fn encodable(len: int) -> bool {
    len / 3 < isize::MAX as int / 4
}

/// Calls `Engine::encode` of `base64::engine::general_purpose::STANDARD`,
/// which returns the padded standard base64 text of its input. The call
/// panics where the length of the text overflows, which `requires` leaves
/// out. The text is named, not spelled out.
#[verifier::external_body]
fn encode_standard(bytes: &[u8]) -> (text: String)
    requires
        encodable(bytes@.len() as int),
    ensures
        text@ == base64_standard(bytes@),
{
    base64::engine::general_purpose::STANDARD.encode(bytes)
}

/// What a data URL of a JPEG image in base64 starts with.
pub open spec fn jpeg_prefix() -> Seq<char> {
    "data:image/jpeg;base64,"@
}

/// The data URL of a JPEG image whose base64 text is `encoded`.
pub fn data_url(encoded: &str) -> (url: String)
    ensures
        url@ == jpeg_prefix() + encoded@,
{
    let mut url: String = String::from_str("data:image/jpeg;base64,");
    url.append(encoded);
    url
}

/// The data URL of the JPEG image `jpeg`; `None` for an image too large to
/// encode.
pub fn jpeg_data_url(jpeg: &[u8]) -> (url: Option<String>)
    ensures
        url is Some <==> encodable(jpeg@.len() as int),
        url matches Some(text) ==> text@ == jpeg_prefix() + base64_standard(jpeg@),
{
    if jpeg.len() / 3 < (isize::MAX / 4) as usize {
        let encoded: String = encode_standard(jpeg);
        Some(data_url(encoded.as_str()))
    } else {
        None
    }
}

} // verus!
