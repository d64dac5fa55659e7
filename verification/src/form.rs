//! The multipart form of one extraction request: a fixed `language` field
//! plus exactly one image part, shaped by the image source.

use vstd::prelude::*;
use vstd::string::StrSliceExecFns;
use vstd::string::StringExecFns;

verus! {

/// The single image part of the form. Exactly one of the two shapes is
/// submitted, never both.
#[derive(Debug)]
pub enum ImagePart {
    /// A binary part under the `file` field, carrying the file's bytes and
    /// an attached file name.
    File { file_name: String, data: Vec<u8> },
    /// A text part under the `base64Image` field, carrying the data-URI
    /// prefixed base64 payload.
    InlineText { value: String },
}

/// The whole form: the language code and the one image part.
#[derive(Debug)]
pub struct OcrForm {
    pub language: String,
    pub image: ImagePart,
}

impl ImagePart {
    /// The form field this part is submitted under.
    pub fn field_name(&self) -> (r: &'static str)
        ensures
            self matches ImagePart::File { .. } ==> r@ == "file"@,
            self matches ImagePart::InlineText { .. } ==> r@ == "base64Image"@,
    {
        match self {
            ImagePart::File { .. } => "file",
            ImagePart::InlineText { .. } => "base64Image",
        }
    }
}

/// The fixed endpoint the form is posted to.
pub fn endpoint_url() -> (r: &'static str)
    ensures
        r@ == "https://api.ocr.space/parse/image"@,
{
    "https://api.ocr.space/parse/image"
}

/// The header the credential is sent under. It travels in a header, not in
/// the URL or the body, so logs of either cannot capture it.
pub fn api_key_header() -> (r: &'static str)
    ensures
        r@ == "apikey"@,
{
    "apikey"
}

/// The language code used when the caller does not pick one.
pub fn default_language() -> (r: &'static str)
    ensures
        r@ == "por"@,
{
    "por"
}

/// The name of the language form field.
pub fn language_field_name() -> (r: &'static str)
    ensures
        r@ == "language"@,
{
    "language"
}

/// An inline payload is submitted with this fixed MIME data-URI prefix put
/// before it, byte for byte.
pub fn data_uri_value(payload: &str) -> (r: String)
    ensures
        r@ == "data:image/jpeg;base64,"@ + payload@,
{
    let mut value = String::from_str("data:image/jpeg;base64,");
    value.append(payload);
    value
}

/// The part of `s` after its last `/`: the whole of `s` when it has none,
/// empty when it ends with one.
pub open spec fn tail_component(s: Seq<char>) -> Seq<char>
    decreases s.len(),
{
    if s.len() == 0 {
        s
    } else if s[s.len() - 1] == '/' {
        Seq::empty()
    } else {
        tail_component(s.drop_last()).push(s[s.len() - 1])
    }
}

/// The file name attached to a file part: the path's base name, or the
/// fixed placeholder when the path has none.
pub open spec fn file_part_name(path: Seq<char>) -> Seq<char> {
    if tail_component(path).len() == 0 {
        "image.png"@
    } else {
        tail_component(path)
    }
}

proof fn lemma_tail_component_subrange(s: Seq<char>, start: int)
    requires
        0 <= start <= s.len(),
        start == 0 || s[start - 1] == '/',
        forall|j: int| start <= j < s.len() ==> s[j] != '/',
    ensures
        tail_component(s) == s.subrange(start, s.len() as int),
    decreases s.len(),
{
    if s.len() == 0 {
        assert(tail_component(s) =~= s.subrange(0, 0));
    } else if start == s.len() {
        assert(s[s.len() - 1] == '/');
        assert(tail_component(s) =~= s.subrange(start, s.len() as int));
    } else {
        assert(s[s.len() - 1] != '/');
        lemma_tail_component_subrange(s.drop_last(), start);
        assert(s.drop_last().subrange(start, s.len() - 1) =~= s.subrange(start, s.len() - 1));
        assert(tail_component(s) =~= s.subrange(start, s.len() as int));
    }
}

/// The base name of a path, as [`file_part_name`] describes it.
pub fn base_name_of(path: &str) -> (r: String)
    ensures
        r@ == file_part_name(path@),
{
    let n = path.unicode_len();
    let mut start: usize = 0;
    let mut i: usize = 0;
    while i < n
        invariant
            i <= n,
            n == path@.len(),
            start <= i,
            start == 0 || path@[start - 1] == '/',
            forall|j: int| start <= j < i ==> path@[j] != '/',
        decreases n - i,
    {
        let c = path.get_char(i);
        if c == '/' {
            start = i + 1;
        }
        i = i + 1;
    }
    proof {
        lemma_tail_component_subrange(path@, start as int);
    }
    if start == n {
        String::from_str("image.png")
    } else {
        let name = path.substring_char(start, n);
        name.to_owned()
    }
}

/// The form for a source named by path, once the file's bytes have been
/// read: the bytes as the `file` part, named by the path's base name.
pub fn form_for_file(language: String, path: &str, data: Vec<u8>) -> (form: OcrForm)
    ensures
        form.language == language,
        form.image matches ImagePart::File { file_name, data: d } && file_name@ == file_part_name(
            path@,
        ) && d == data,
{
    let file_name = base_name_of(path);
    OcrForm { language, image: ImagePart::File { file_name, data } }
}

/// The form for an inline base64 source: the payload behind the fixed
/// data-URI prefix, as the `base64Image` part.
pub fn form_for_inline(language: String, payload: &str) -> (form: OcrForm)
    ensures
        form.language == language,
        form.image matches ImagePart::InlineText { value } && value@ == "data:image/jpeg;base64,"@
            + payload@,
{
    let value = data_uri_value(payload);
    OcrForm { language, image: ImagePart::InlineText { value } }
}

} // verus!
