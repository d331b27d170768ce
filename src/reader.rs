use vstd::prelude::*;
use crate::annotate::{mime_for_name, mime_of_name};
use crate::models::TextContent;

verus! {

/// How many leading bytes of a file are read to sniff its type.
pub const SAMPLE_LEN: usize = 16 * 1024;

/// Files larger than this many bytes are not decoded.
pub const TEXT_LIMIT: u64 = 5 * 1024 * 1024;

/// The mime type that `infer` recognises from leading bytes, if any.
pub uninterp spec fn signature_mime(b: Seq<u8>) -> Option<Seq<char>>;

/// The name of the encoding that `chardetng` guesses for a complete byte stream.
pub uninterp spec fn guessed_encoding(b: Seq<u8>) -> Seq<char>;

/// What `encoding_rs` gives when decoding `b` in the encoding labelled
/// `label`: the text and whether malformed sequences were replaced; `None`
/// when no encoding has that label.
pub uninterp spec fn decode_outcome(label: Seq<char>, b: Seq<u8>) -> Option<(Seq<char>, bool)>;

/// Relies on `infer::get` and `Type::mime_type`: the first known signature
/// that the bytes match.
#[verifier::external_body]
fn sniff_signature(sample: &[u8]) -> (r: Option<String>)
    ensures
        r.is_some() == signature_mime(sample@).is_some(),
        r.is_some() ==> r->0@ == signature_mime(sample@)->0,
{
    infer::get(sample).map(|t| t.mime_type().to_string())
}

/// Relies on `chardetng::EncodingDetector`: fed the whole stream at once
/// (`feed` with `last` set), then `guess` with no top-level domain and UTF-8
/// allowed; the guessed encoding's name.
#[verifier::external_body]
fn detect_encoding(bytes: &[u8]) -> (r: String)
    ensures
        r@ == guessed_encoding(bytes@),
{
    let mut detector = chardetng::EncodingDetector::new();
    detector.feed(bytes, true);
    detector.guess(None, true).name().to_string()
}

/// Relies on `encoding_rs::Encoding::for_label` and `Encoding::decode`, which
/// decodes a complete input with BOM sniffing and reports whether malformed
/// sequences were replaced. `decode` panics only when its output size
/// overflows `usize`, which the bound on the input excludes.
#[verifier::external_body]
fn decode_labelled(label: &str, bytes: &[u8]) -> (r: Option<(String, bool)>)
    requires
        bytes@.len() <= TEXT_LIMIT,
    ensures
        r.is_some() == decode_outcome(label@, bytes@).is_some(),
        r matches Some((t, bad)) ==> decode_outcome(label@, bytes@) == Some((t@, bad)),
{
    encoding_rs::Encoding::for_label(label.as_bytes()).map(
        |enc| {
            let (text, _, had_errors) = enc.decode(bytes);
            (text.into_owned(), had_errors)
        },
    )
}

/// The type of a file: from the signature of its leading bytes, else from
/// the extension of its name.
pub open spec fn sniffed_mime(sample: Seq<u8>, file_name: Seq<char>) -> Seq<char> {
    match signature_mime(sample) {
        Some(m) => m,
        None => mime_for_name(file_name),
    }
}

/// The text of `bytes` decoded in the encoding guessed for them: absent when
/// decoding replaced malformed sequences.
pub open spec fn decoded_text(bytes: Seq<u8>) -> Option<Seq<char>> {
    match decode_outcome(guessed_encoding(bytes), bytes) {
        Some((t, bad)) => if bad { None } else { Some(t) },
        None => None,
    }
}

/// Guesses the type of a file from its leading bytes and its name.
pub fn content_mime(sample: &[u8], file_name: &str) -> (r: String)
    ensures
        r@ == sniffed_mime(sample@, file_name@),
{
    match sniff_signature(sample) {
        Some(m) => m,
        None => mime_of_name(file_name),
    }
}

/// Whether a file of `size` bytes is read whole and decoded.
pub fn wants_full_read(size: u64) -> (r: bool)
    ensures
        r == (size <= TEXT_LIMIT),
{
    size <= TEXT_LIMIT
}

/// The text content of the file at `path` of type `mimetype` and `size`
/// bytes, whose whole content is `bytes` (ignored, and best left empty, when
/// the file is too large). A file over the limit gets neither encoding nor
/// text. Otherwise the encoding is guessed from the whole content, and the
/// text is the decoded content, absent when decoding met malformed input.
pub fn text_content(path: &str, mimetype: String, size: u64, bytes: &[u8]) -> (r: TextContent)
    ensures
        r.path@ == path@,
        r.mimetype@ == mimetype@,
        (size > TEXT_LIMIT || bytes@.len() > TEXT_LIMIT) ==> r.enc.is_none() && r.text.is_none(),
        !(size > TEXT_LIMIT || bytes@.len() > TEXT_LIMIT) ==> {
            &&& (r.enc matches Some(e) && e@ == guessed_encoding(bytes@))
            &&& r.text.is_some() == decoded_text(bytes@).is_some()
            &&& r.text.is_some() ==> r.text->0@ == decoded_text(bytes@)->0
        },
{
    if size > TEXT_LIMIT || bytes.len() as u64 > TEXT_LIMIT {
        return TextContent { path: path.to_string(), mimetype, enc: None, text: None };
    }
    let enc = detect_encoding(bytes);
    let text = match decode_labelled(enc.as_str(), bytes) {
        Some((t, bad)) => if bad {
            None
        } else {
            Some(t)
        },
        None => None,
    };
    TextContent { path: path.to_string(), mimetype, enc: Some(enc), text }
}

} // verus!
