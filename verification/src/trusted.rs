//! Calls into `std`, `serde_json`, `url`, `base64` and `image` whose
//! behaviour is believed, not proved. Each item states what its contract
//! claims of the function it calls.
use vstd::prelude::*;
use base64::Engine;
use crate::json::JsonValue;

verus! {

/// What `String::from_utf8_lossy` makes of `bytes`: the UTF-8 decoding,
/// each invalid sequence replaced by U+FFFD.
pub uninterp spec fn utf8_lossy(bytes: Seq<u8>) -> Seq<char>;

/// Calls `String::from_utf8_lossy`. Claims: the result is `utf8_lossy` of
/// the bytes, and, as its documentation says, well-formed UTF-8 comes back
/// decoded unchanged.
#[verifier::external_body]
pub fn utf8_lossy_string(bytes: &[u8]) -> (r: String)
    ensures
        r@ == utf8_lossy(bytes@),
        vstd::utf8::valid_utf8(bytes@) ==> r@ == vstd::utf8::decode_utf8(bytes@),
{
    String::from_utf8_lossy(bytes).into_owned()
}

/// What `serde_json::from_str::<String>` makes of `s`: the decoded string
/// when `s` is one JSON string literal (with surrounding white space),
/// nothing otherwise.
pub uninterp spec fn json_string_literal(s: Seq<char>) -> Option<Seq<char>>;

/// Calls `serde_json::from_str::<String>`. Claims: `Some` exactly when it
/// returns `Ok`, holding the decoded text, both given by
/// `json_string_literal`.
#[verifier::external_body]
pub fn decode_json_string(s: &str) -> (r: Option<String>)
    ensures
        match r {
            Some(t) => json_string_literal(s@) == Some(t@),
            None => json_string_literal(s@) is None,
        },
{
    serde_json::from_str::<String>(s).ok()
}

/// What `url::form_urlencoded::parse` yields for the bytes of `s`: the
/// percent-decoded (name, value) pairs, in order.
pub uninterp spec fn form_pairs(s: Seq<char>) -> Seq<(Seq<char>, Seq<char>)>;

/// Calls `url::form_urlencoded::parse` on the bytes of `s` and collects
/// the pairs as owned strings. Claims: the pairs are `form_pairs(s@)`.
#[verifier::external_body]
pub fn parse_form_pairs(s: &str) -> (r: Vec<(String, String)>)
    ensures
        r@.len() == form_pairs(s@).len(),
        forall|i: int| 0 <= i < r@.len() ==> (#[trigger] r@[i]).0@ == form_pairs(s@)[i].0 && r@[i].1@ == form_pairs(s@)[i].1,
{
    url::form_urlencoded::parse(s.as_bytes()).into_owned().collect()
}

} // verus!

verus! {

/// `serde_json::Value`, the parser's document tree; converted at once into
/// a `JsonValue`.
#[verifier::external_type_specification]
#[verifier::external_body]
pub struct ExJsonDocument(serde_json::Value);

/// The document that `serde_json::from_str::<serde_json::Value>` reads from
/// `s`, as a `JsonValue` (numbers in the text form `serde_json` prints,
/// object members in the order its map hands them out), if `s` is one JSON
/// document.
pub uninterp spec fn json_document(s: Seq<char>) -> Option<JsonValue>;

/// Converts a parsed document into a `JsonValue`, variant by variant.
#[verifier::external_body]
fn json_value_from(v: serde_json::Value) -> (r: JsonValue) {
    match v {
        serde_json::Value::Null => JsonValue::Null,
        serde_json::Value::Bool(b) => JsonValue::Bool(b),
        serde_json::Value::Number(n) => JsonValue::Number(n.to_string()),
        serde_json::Value::String(s) => JsonValue::String(s),
        serde_json::Value::Array(a) => JsonValue::Array(a.into_iter().map(json_value_from).collect()),
        serde_json::Value::Object(m) => JsonValue::Object(m.into_iter().map(|(k, v)| (k, json_value_from(v))).collect()),
    }
}

/// Calls `serde_json::from_str::<serde_json::Value>` and converts the
/// document. Claims: the result is `json_document(s@)`, `None` exactly when
/// the parser returns an error.
#[verifier::external_body]
pub fn parse_json_value(s: &str) -> (r: Option<JsonValue>)
    ensures
        r == json_document(s@),
{
    serde_json::from_str::<serde_json::Value>(s).ok().map(json_value_from)
}

/// What `str::to_lowercase` makes of `s`: its Unicode lower-case form.
pub uninterp spec fn lowercase(s: Seq<char>) -> Seq<char>;

/// Calls `str::to_lowercase`. Claims: the result is `lowercase(s@)`.
#[verifier::external_body]
pub fn to_lowercase(s: &str) -> (r: String)
    ensures
        r@ == lowercase(s@),
{
    s.to_lowercase()
}

} // verus!

verus! {

/// What the standard base64 engine (`base64::engine::general_purpose::STANDARD`)
/// decodes `s` to, if `s` is valid base64.
pub uninterp spec fn base64_decoded(s: Seq<char>) -> Option<Seq<u8>>;

/// The `Display` text of the decode error for `s`.
pub uninterp spec fn base64_error_text(s: Seq<char>) -> Seq<char>;

/// What the standard base64 engine encodes `b` to.
pub uninterp spec fn base64_encoded(b: Seq<u8>) -> Seq<char>;

/// Calls `STANDARD.decode`. Claims: `Ok` exactly when `base64_decoded(s@)`
/// is a value, and then holding it; otherwise the text of the error.
#[verifier::external_body]
pub fn base64_decode(s: &str) -> (r: Result<Vec<u8>, String>)
    ensures
        match r {
            Ok(b) => base64_decoded(s@) == Some(b@),
            Err(m) => base64_decoded(s@) is None && m@ == base64_error_text(s@),
        },
{
    base64::engine::general_purpose::STANDARD.decode(s).map_err(|e| e.to_string())
}

/// A character of the standard base64 alphabet, or its padding `=`.
pub open spec fn is_base64_char(c: char) -> bool {
    ('A' <= c && c <= 'Z') || ('a' <= c && c <= 'z') || ('0' <= c && c <= '9') || c == '+' || c
        == '/' || c == '='
}

/// Calls `STANDARD.encode`. Claims: the result is `base64_encoded(b@)`; it
/// is written in the RFC 4648 standard alphabet with `=` padding (the
/// engine's `PAD` configuration writes padding when encoding and requires
/// it when decoding, and encoding leaves no trailing bits), so the same
/// engine's `decode` gives the bytes back.
#[verifier::external_body]
pub fn base64_encode(b: &[u8]) -> (r: String)
    ensures
        r@ == base64_encoded(b@),
        base64_decoded(r@) == Some(b@),
        forall|i: int| 0 <= i < r@.len() ==> is_base64_char(#[trigger] r@[i]),
{
    base64::engine::general_purpose::STANDARD.encode(b)
}

/// An image as 8-bit RGBA pixels, row by row.
#[derive(Debug)]
pub struct RgbaPixels {
    pub width: u32,
    pub height: u32,
    pub bytes: Vec<u8>,
}

/// The outcome of PNG-encoding RGBA pixels.
#[derive(Debug)]
pub enum PngOutcome {
    /// The byte buffer is shorter than width times height times 4.
    BufferTooSmall,
    /// The encoder failed, with the text of its error.
    EncodeFailed(String),
    Encoded(Vec<u8>),
}

/// The PNG file `image` writes for a `width` by `height` RGBA buffer.
pub uninterp spec fn png_encoded(width: u32, height: u32, rgba: Seq<u8>) -> Option<Seq<u8>>;

/// The `Display` text of the error the PNG encoder gives for these pixels.
pub uninterp spec fn png_error_text(width: u32, height: u32, rgba: Seq<u8>) -> Seq<char>;

/// Calls `image::RgbaImage::from_raw` and writes the image as PNG into a
/// byte buffer. Claims: `from_raw` refuses exactly a buffer shorter than
/// `4 * width * height` (its documentation: "not big enough"); otherwise
/// the outcome is `png_encoded` or the text of the encoder's error. The PNG
/// encoder asserts that the buffer holds exactly `4 * width * height`
/// bytes, so a longer buffer is not admitted.
#[verifier::external_body]
pub fn encode_png(width: u32, height: u32, rgba: Vec<u8>) -> (r: PngOutcome)
    requires
        rgba@.len() <= 4 * width * height,
    ensures
        (r is BufferTooSmall) <==> (rgba@.len() < 4 * width * height),
        r matches PngOutcome::Encoded(b) ==> png_encoded(width, height, rgba@) == Some(b@),
        r matches PngOutcome::EncodeFailed(m) ==> png_encoded(width, height, rgba@) is None && m@
            == png_error_text(width, height, rgba@),
{
    let Some(buffer) = image::RgbaImage::from_raw(width, height, rgba) else {
        return PngOutcome::BufferTooSmall;
    };
    let mut out = std::io::Cursor::new(Vec::new());
    match image::DynamicImage::ImageRgba8(buffer).write_to(&mut out, image::ImageFormat::Png) {
        Ok(()) => PngOutcome::Encoded(out.into_inner()),
        Err(e) => PngOutcome::EncodeFailed(e.to_string()),
    }
}

} // verus!
