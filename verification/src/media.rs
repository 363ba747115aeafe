//! Images: recognising their format and packing them as data URLs for the model.
use vstd::prelude::*;

use base64::Engine;

use crate::text::{lowercase, seq_ends_with, str_ends_with, to_lowercase};

verus! {

/// The MIME type that an image's leading bytes announce: JPEG (FF D8 FF),
/// PNG (89 50 4E 47) or WebP ("RIFF", four bytes, "WEBP"); none for fewer
/// than four bytes or any other signature.
pub open spec fn image_format(b: Seq<u8>) -> Option<Seq<char>> {
    if b.len() < 4 {
        None
    } else if b[0] == 0xFF && b[1] == 0xD8 && b[2] == 0xFF {
        Some("image/jpeg"@)
    } else if b[0] == 0x89 && b[1] == 0x50 && b[2] == 0x4E && b[3] == 0x47 {
        Some("image/png"@)
    } else if b.len() >= 12 && b[0] == 0x52 && b[1] == 0x49 && b[2] == 0x46 && b[3] == 0x46 && b[8]
        == 0x57 && b[9] == 0x45 && b[10] == 0x42 && b[11] == 0x50 {
        Some("image/webp"@)
    } else {
        None
    }
}

/// The view of an optional static string.
pub open spec fn opt_static_view(o: Option<&'static str>) -> Option<Seq<char>> {
    match o {
        Some(s) => Some(s@),
        None => None,
    }
}

/// Detect image format from magic bytes (file signatures)
pub fn detect_image_format(bytes: &[u8]) -> (r: Option<&'static str>)
    ensures
        opt_static_view(r) == image_format(bytes@),
{
    if bytes.len() < 4 {
        return None;
    }
    if bytes[0] == 0xFF && bytes[1] == 0xD8 && bytes[2] == 0xFF {
        Some("image/jpeg")
    } else if bytes[0] == 0x89 && bytes[1] == 0x50 && bytes[2] == 0x4E && bytes[3] == 0x47 {
        Some("image/png")
    } else if bytes.len() >= 12 && bytes[0] == 0x52 && bytes[1] == 0x49 && bytes[2] == 0x46
        && bytes[3] == 0x46 && bytes[8] == 0x57 && bytes[9] == 0x45 && bytes[10] == 0x42
        && bytes[11] == 0x50 {
        Some("image/webp")
    } else {
        None
    }
}

/// The MIME type that a file path's extension suggests, compared after
/// lowercasing: .jpg or .jpeg, .png, .webp.
pub open spec fn extension_format(path: Seq<char>) -> Option<Seq<char>> {
    let p = lowercase(path);
    if seq_ends_with(p, ".jpg"@) || seq_ends_with(p, ".jpeg"@) {
        Some("image/jpeg"@)
    } else if seq_ends_with(p, ".png"@) {
        Some("image/png"@)
    } else if seq_ends_with(p, ".webp"@) {
        Some("image/webp"@)
    } else {
        None
    }
}

/// The MIME type that a file path's extension suggests.
pub fn format_from_extension(path: &str) -> (r: Option<&'static str>)
    ensures
        opt_static_view(r) == extension_format(path@),
{
    let lower = to_lowercase(path);
    let p = lower.as_str();
    if str_ends_with(p, ".jpg") || str_ends_with(p, ".jpeg") {
        Some("image/jpeg")
    } else if str_ends_with(p, ".png") {
        Some("image/png")
    } else if str_ends_with(p, ".webp") {
        Some("image/webp")
    } else {
        None
    }
}

/// The character of the standard base64 alphabet for a six-bit value.
pub open spec fn b64_char(v: nat) -> char {
    if v < 26 {
        ('A' as nat + v) as char
    } else if v < 52 {
        ('a' as nat + (v - 26)) as char
    } else if v < 62 {
        ('0' as nat + (v - 52)) as char
    } else if v == 62 {
        '+'
    } else {
        '/'
    }
}

/// Standard base64 (RFC 4648, alphabet A-Z a-z 0-9 + /, padded with '='):
/// each three bytes become four characters, and a last one or two bytes
/// become two or three characters and padding.
pub open spec fn base64_standard(b: Seq<u8>) -> Seq<char>
    decreases b.len(),
{
    if b.len() == 0 {
        Seq::empty()
    } else if b.len() == 1 {
        let n = b[0] as nat * 65536;
        seq![b64_char(n / 262144), b64_char((n / 4096) % 64), '=', '=']
    } else if b.len() == 2 {
        let n = b[0] as nat * 65536 + b[1] as nat * 256;
        seq![b64_char(n / 262144), b64_char((n / 4096) % 64), b64_char((n / 64) % 64), '=']
    } else {
        let n = b[0] as nat * 65536 + b[1] as nat * 256 + b[2] as nat;
        seq![b64_char(n / 262144), b64_char((n / 4096) % 64), b64_char((n / 64) % 64), b64_char(n % 64)]
            + base64_standard(b.subrange(3, b.len() as int))
    }
}

/// The length of the padded base64 encoding of `n` bytes.
pub open spec fn base64_len(n: nat) -> nat {
    (n / 3) * 4 + if n % 3 > 0 {
        4nat
    } else {
        0nat
    }
}

/// The bytes in standard base64 (`base64::engine::general_purpose::STANDARD.encode`).
/// The encoder computes the encoded length, panicking where it overflows
/// `usize`, and allocates a buffer of that length, which panics beyond
/// `isize::MAX` bytes; the precondition rules both out.
#[verifier::external_body]
pub(crate) fn encode_base64(bytes: &[u8]) -> (r: String)
    requires
        base64_len(bytes@.len()) <= isize::MAX,
    ensures
        r@ == base64_standard(bytes@),
{
    base64::engine::general_purpose::STANDARD.encode(bytes)
}

/// The data URL of an image: "data:", the MIME type, ";base64,", the payload.
pub open spec fn data_url(mime: Seq<char>, bytes: Seq<u8>) -> Seq<char> {
    "data:"@ + mime + ";base64,"@ + base64_standard(bytes)
}

/// The MIME type of a downloaded image: from its bytes, else from its path.
pub open spec fn image_mime(bytes: Seq<u8>, path: Seq<char>) -> Option<Seq<char>> {
    match image_format(bytes) {
        Some(m) => Some(m),
        None => extension_format(path),
    }
}

/// Packs a downloaded image as `(mime_type, data_url)`; none where neither
/// its bytes nor its path tell an image format.
pub fn image_data_url(bytes: &[u8], file_path: &str) -> (r: Option<(String, String)>)
    requires
        base64_len(bytes@.len()) <= isize::MAX,
    ensures
        match image_mime(bytes@, file_path@) {
            Some(m) => r matches Some((mime, url)) && mime@ == m && url@ == data_url(m, bytes@),
            None => r is None,
        },
{
    let mime_type = match detect_image_format(bytes) {
        Some(m) => m,
        None => match format_from_extension(file_path) {
            Some(m) => m,
            None => {
                return None;
            },
        },
    };
    let base64_data = encode_base64(bytes);
    let mut url = String::from_str("data:");
    url.append(mime_type);
    url.append(";base64,");
    url.append(base64_data.as_str());
    Some((String::from_str(mime_type), url))
}

} // verus!
