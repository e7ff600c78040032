use base64::Engine;
use vstd::prelude::*;
use crate::text::str_eq;

verus! {

/// The character of a 6-bit value in the standard base64 alphabet
/// (`A`-`Z`, `a`-`z`, `0`-`9`, `+`, `/`).
pub open spec fn b64_char(v: int) -> char {
    if v < 26 {
        (65 + v) as char
    } else if v < 52 {
        (97 + v - 26) as char
    } else if v < 62 {
        (48 + v - 52) as char
    } else if v == 62 {
        '+'
    } else {
        '/'
    }
}

/// Standard base64 with `=` padding (RFC 4648, section 4): each group of
/// three bytes becomes four characters; a last group of one or two bytes
/// becomes two or three characters and is padded to four with `=`.
pub open spec fn b64_encode(s: Seq<u8>) -> Seq<char>
    decreases s.len(),
{
    let a = s[0] as int;
    let b = s[1] as int;
    let c = s[2] as int;
    if s.len() == 0 {
        Seq::empty()
    } else if s.len() == 1 {
        seq![b64_char(a / 4), b64_char((a % 4) * 16), '=', '=']
    } else if s.len() == 2 {
        seq![b64_char(a / 4), b64_char((a % 4) * 16 + b / 16), b64_char((b % 16) * 4), '=']
    } else {
        seq![
            b64_char(a / 4),
            b64_char((a % 4) * 16 + b / 16),
            b64_char((b % 16) * 4 + c / 64),
            b64_char(c % 64),
        ] + b64_encode(s.skip(3))
    }
}

/// Encodes bytes with the base64 crate's `general_purpose::STANDARD` engine
/// (`Engine::encode`).
///
/// Trusted: that engine uses the standard alphabet with `=` padding, and the
/// contract states that encoding in full (`b64_encode`). The requirement
/// leaves out inputs whose encoded length overflows `usize`, on which
/// `encode` panics.
#[verifier::external_body]
fn base64_standard_encode(data: &[u8]) -> (r: String)
    requires
        (data@.len() + 2) / 3 * 4 <= usize::MAX,
    ensures
        r@ == b64_encode(data@),
{
    base64::engine::general_purpose::STANDARD.encode(data)
}

/// The lower-case form of a string under Unicode's `Lowercase` mapping, as
/// `str::to_lowercase` computes it.
pub uninterp spec fn unicode_lowercase(s: Seq<char>) -> Seq<char>;

/// `str::to_lowercase`.
///
/// Trusted: the result depends on the argument alone; it is named
/// `unicode_lowercase` and nothing more is claimed of it.
#[verifier::external_body]
fn to_lowercase(s: &str) -> (r: String)
    ensures
        r@ == unicode_lowercase(s@),
{
    s.to_lowercase()
}

/// The MIME type of an image by its lower-cased file extension: png, webp,
/// jpg and jpeg are known; anything else is taken as png.
pub open spec fn mime_of_lowercase_extension(ext: Seq<char>) -> Seq<char> {
    if ext == "webp"@ {
        "image/webp"@
    } else if ext == "jpg"@ || ext == "jpeg"@ {
        "image/jpeg"@
    } else {
        "image/png"@
    }
}

/// The MIME type of an image file by its extension (compared without case);
/// a file without an extension is taken as png.
pub fn image_mime(extension: Option<&str>) -> (r: &'static str)
    ensures
        r@ == mime_of_lowercase_extension(unicode_lowercase(
            match extension {
                Some(e) => e@,
                None => "png"@,
            },
        )),
{
    let ext = match extension {
        Some(e) => to_lowercase(e),
        None => to_lowercase("png"),
    };
    mime_of_extension_lowercased(ext.as_str())
}

/// The MIME type for an extension that is already lower-cased.
pub fn mime_of_extension_lowercased(ext: &str) -> (r: &'static str)
    ensures
        r@ == mime_of_lowercase_extension(ext@),
{
    if str_eq(ext, "webp") {
        "image/webp"
    } else if str_eq(ext, "jpg") || str_eq(ext, "jpeg") {
        "image/jpeg"
    } else {
        "image/png"
    }
}

/// A `data:` URL that embeds an image: `data:<mime>;base64,<data>`.
pub fn image_data_url(extension: Option<&str>, data: &[u8]) -> (r: String)
    requires
        (data@.len() + 2) / 3 * 4 <= usize::MAX,
    ensures
        r@ == "data:"@ + mime_of_lowercase_extension(unicode_lowercase(
            match extension {
                Some(e) => e@,
                None => "png"@,
            },
        )) + ";base64,"@ + b64_encode(data@),
{
    let mime = image_mime(extension);
    let b64 = base64_standard_encode(data);
    let mut url = String::from_str("data:");
    url.append(mime);
    url.append(";base64,");
    url.append(b64.as_str());
    url
}

} // verus!
