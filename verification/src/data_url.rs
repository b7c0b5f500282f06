//! Icons as data URLs: `data:image/<ext>;base64,<bytes>`.

use crate::source::opt_text;
use base64::engine::general_purpose;
use base64::Engine;
use vstd::prelude::*;
use vstd::string::*;

verus! {

/// The standard base64 text of `bytes`, with padding.
pub uninterp spec fn base64_standard(bytes: Seq<u8>) -> Seq<char>;

/// The length of the padded base64 text of `n` bytes.
pub open spec fn base64_len(n: nat) -> nat {
    n / 3 * 4 + if n % 3 > 0 {
        4nat
    } else {
        0nat
    }
}

/// Whether the base64 text of `n` bytes has a length that fits in memory.
pub open spec fn encodable(n: nat) -> bool {
    base64_len(n) <= usize::MAX
}

/// `Engine::encode` of `base64::engine::general_purpose::STANDARD`: the
/// padded base64 text of the bytes in the standard alphabet. The encoder stops
/// the program when the length of the text overflows, so such inputs are left out.
/// Nothing else is claimed about the text than that the bytes determine it.
#[verifier::external_body]
pub(crate) fn encode_base64(bytes: &Vec<u8>) -> (text: String)
    requires
        encodable(bytes@.len()),
    ensures
        text@ == base64_standard(bytes@),
{
    general_purpose::STANDARD.encode(bytes)
}

/// The data URL of an image of type `ext` whose file holds `bytes`.
pub open spec fn data_url(ext: Seq<char>, bytes: Seq<u8>) -> Seq<char> {
    "data:image/"@ + ext + ";base64,"@ + base64_standard(bytes)
}

/// The data URL of the image, where its base64 text fits in memory.
pub open spec fn icon_url(ext: Seq<char>, bytes: Seq<u8>) -> Option<Seq<char>> {
    if encodable(bytes.len()) {
        Some(data_url(ext, bytes))
    } else {
        None
    }
}

/// Whether `n` bytes can be encoded.
pub fn can_encode(n: usize) -> (ok: bool)
    ensures
        ok == encodable(n as nat),
{
    match (n / 3).checked_mul(4) {
        Some(whole) => n % 3 == 0 || whole.checked_add(4).is_some(),
        None => false,
    }
}

/// The data URL for the image file content `bytes` of type `ext` (`png`,
/// `svg`, `xpm`). `None` only for a content too long to encode.
pub fn icon_data_url(ext: &str, bytes: &Vec<u8>) -> (url: Option<String>)
    ensures
        opt_text(url) == icon_url(ext@, bytes@),
{
    if !can_encode(bytes.len()) {
        return None;
    }
    let mut url = String::from_str("data:image/");
    url.append(ext);
    url.append(";base64,");
    let encoded = encode_base64(bytes);
    url.append(encoded.as_str());
    Some(url)
}

/// The data URL for the PNG file content `bytes`.
pub fn png_data_url(bytes: &Vec<u8>) -> (url: Option<String>)
    ensures
        opt_text(url) == icon_url("png"@, bytes@),
{
    icon_data_url("png", bytes)
}

} // verus!
