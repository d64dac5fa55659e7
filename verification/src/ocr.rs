//! Core data model of one text-extraction call: the image source, the
//! outcome, and the error taxonomy.

use vstd::prelude::*;
use vstd::string::StringExecFns;
use crate::text::decimal_rep;
use crate::text::joined_texts;
use crate::text::joined_with;
use crate::text::join_messages;
use crate::text::u16_to_decimal;

verus! {

/// The image handed to the service: either a path to a local file, or a
/// payload that the caller has already base64-encoded.
#[derive(Debug)]
pub enum ImageSource {
    FilePath(String),
    Base64(String),
}

/// The successful outcome: every parsed text segment of the reply,
/// concatenated in service order with single newlines between segments.
#[derive(Debug)]
pub struct OcrResult {
    pub text: String,
}

/// Every way one extraction call can fail. The kinds are distinct on
/// purpose: a caller can tell a missing file from a transport fault, a bad
/// status, a malformed body, and an error the service itself reported.
#[derive(Debug)]
pub enum OcrError {
    /// The image file could not be read; carries the reader's message.
    IoError(String),
    /// The request never completed; carries the transport's message.
    NetworkError(String),
    /// The service answered with a status other than 200.
    HttpStatusError(u16),
    /// The body did not have the expected shape; carries the parser's message.
    DeserializationError(String),
    /// The service flagged the request as errored and gave messages,
    /// joined here with `", "`.
    ServiceReportedError(String),
    /// The service flagged the request as errored but gave no message.
    UnknownServiceError,
}

/// One parsed segment of the service's reply.
#[derive(Debug)]
pub struct ParsedSegment {
    pub parsed_text: String,
}

/// The service's reply body, already decoded from its wire shape: the parsed
/// segments in reply order, an optional error flag, and an optional list of
/// error messages.
#[derive(Debug)]
pub struct RawServiceResponse {
    pub parsed_results: Vec<ParsedSegment>,
    pub is_errored: Option<bool>,
    pub error_message: Option<Vec<String>>,
}

impl RawServiceResponse {
    /// The parsed texts of the reply, in reply order.
    pub open spec fn texts(&self) -> Seq<Seq<char>> {
        segment_texts(self.parsed_results@)
    }

    /// Whether the reply flags a processing error.
    pub open spec fn flags_error(&self) -> bool {
        self.is_errored == Some(true)
    }
}

/// What the final outcome must be for a given decoded reply body: a reply
/// whose error flag is set fails — with its messages joined by `", "` when
/// it carries any, and as an unknown service error when it carries none —
/// and any other reply succeeds with the parsed texts concatenated in reply
/// order, a single newline between segments.
pub open spec fn is_normalized_outcome(
    resp: RawServiceResponse,
    r: Result<OcrResult, OcrError>,
) -> bool {
    &&& (r is Ok) == !resp.flags_error()
    &&& !resp.flags_error() ==> (r matches Ok(out) && out.text@ == joined_texts(resp.texts()))
    &&& resp.flags_error() ==> (resp.error_message matches Some(msgs) ==> (r matches Err(
        OcrError::ServiceReportedError(m),
    ) && m@ == joined_with(msgs.deep_view(), ", "@)))
    &&& resp.flags_error() ==> (resp.error_message is None ==> r matches Err(
        OcrError::UnknownServiceError,
    ))
}

/// Turns a decoded reply body into the final outcome, exactly as
/// [`is_normalized_outcome`] describes.
pub fn normalize_response(resp: RawServiceResponse) -> (r: Result<OcrResult, OcrError>)
    ensures
        is_normalized_outcome(resp, r),
{
    let flagged = match &resp.is_errored {
        Some(b) => *b,
        None => false,
    };
    if flagged {
        match resp.error_message {
            Some(msgs) => Err(OcrError::ServiceReportedError(join_messages(&msgs))),
            None => Err(OcrError::UnknownServiceError),
        }
    } else {
        let text = concat_parsed_texts(&resp.parsed_results);
        Ok(OcrResult { text })
    }
}

/// The parsed texts of a sequence of segments, in order.
pub open spec fn segment_texts(segs: Seq<ParsedSegment>) -> Seq<Seq<char>> {
    segs.map(|i: int, s: ParsedSegment| s.parsed_text@)
}

/// Concatenates the parsed texts with single newlines between them, exactly
/// as [`joined_texts`] describes.
pub fn concat_parsed_texts(segs: &Vec<ParsedSegment>) -> (r: String)
    ensures
        r@ == joined_texts(segment_texts(segs@)),
{
    let mut full: String = String::new();
    let mut i: usize = 0;
    while i < segs.len()
        invariant
            i <= segs.len(),
            full@ == joined_texts(segment_texts(segs@).take(i as int)),
        decreases segs.len() - i,
    {
        proof {
            reveal_strlit("\n");
            assert(segment_texts(segs@).take(i + 1).drop_last() =~= segment_texts(
                segs@,
            ).take(i as int));
            assert(segment_texts(segs@).take(i + 1).last() == segs@[i as int].parsed_text@);
        }
        if !full.as_str().is_empty() {
            full.append("\n");
            proof {
                assert("\n"@ =~= seq!['\n']);
            }
        }
        full.append(segs[i].parsed_text.as_str());
        i = i + 1;
    }
    proof {
        assert(segment_texts(segs@).take(segs@.len() as int) =~= segment_texts(segs@));
    }
    full
}

/// A reply is checked for status 200 before its body is looked at; any other
/// status is an `HttpStatusError` carrying exactly that status.
pub fn check_status(status: u16) -> (r: Result<(), OcrError>)
    ensures
        status == 200 <==> r is Ok,
        status != 200 ==> r == Result::<(), OcrError>::Err(OcrError::HttpStatusError(status)),
{
    if status == 200 {
        Ok(())
    } else {
        Err(OcrError::HttpStatusError(status))
    }
}

impl OcrError {
    /// The human-readable message of an error, as the surrounding program
    /// prints it: the carried message where one was carried, a fixed phrase
    /// with the decimal status code for a bad status, and a fixed phrase for
    /// an unexplained service error.
    pub fn message(&self) -> (r: String)
        ensures
            self matches OcrError::IoError(m) ==> r@ == m@,
            self matches OcrError::NetworkError(m) ==> r@ == m@,
            self matches OcrError::HttpStatusError(s) ==> r@ == "API request failed with status: "@
                + decimal_rep(s as nat),
            self matches OcrError::DeserializationError(m) ==> r@ == m@,
            self matches OcrError::ServiceReportedError(m) ==> r@ == m@,
            self is UnknownServiceError ==> r@ == "Unknown OCR processing error"@,
    {
        match self {
            OcrError::IoError(m) => m.clone(),
            OcrError::NetworkError(m) => m.clone(),
            OcrError::HttpStatusError(s) => {
                let mut text = String::from_str("API request failed with status: ");
                text.append(u16_to_decimal(*s).as_str());
                text
            },
            OcrError::DeserializationError(m) => m.clone(),
            OcrError::ServiceReportedError(m) => m.clone(),
            OcrError::UnknownServiceError => String::from_str("Unknown OCR processing error"),
        }
    }
}

} // verus!
