//! The request flow as a state machine. Each call runs one linear session:
//! read the file if the source names one, post the form, check the status,
//! decode the body, normalize. The machine makes every decision; the caller
//! only performs the [`Action`] it is handed and reports what happened as
//! the next [`Event`]. The order of the phases is part of the contract: a
//! failed file read settles the call before anything is sent, and a bad
//! status settles it before the body is looked at.

use vstd::prelude::*;
use crate::form::OcrForm;
use crate::form::ImagePart;
use crate::form::file_part_name;
use crate::form::form_for_file;
use crate::form::form_for_inline;
use crate::ocr::ImageSource;
use crate::ocr::OcrError;
use crate::ocr::OcrResult;
use crate::ocr::RawServiceResponse;
use crate::ocr::check_status;
use crate::ocr::is_normalized_outcome;
use crate::ocr::normalize_response;

verus! {

/// Where one extraction call stands.
pub enum OcrSession {
    /// Nothing has happened yet.
    Ready { language: String, source: ImageSource },
    /// The file named by the source is being read; nothing has been sent.
    AwaitingFile { language: String, path: String },
    /// The form has been handed out for posting; the status is awaited.
    AwaitingStatus,
    /// The status was 200; the decoded body is awaited.
    AwaitingBody,
    /// The outcome is settled.
    Done,
}

/// What the caller must do next.
pub enum Action {
    /// Read this file, then report `FileRead` or `FileUnreadable`.
    ReadFile { path: String },
    /// Post this form to the fixed endpoint with the credential header,
    /// then report `ResponseStatus` or `TransportFailed`.
    Send { form: OcrForm },
    /// Decode the reply body, then report `BodyParsed` or `BodyMalformed`.
    ReadBody,
    /// The call is over; this is its outcome.
    Finish { outcome: Result<OcrResult, OcrError> },
}

/// What the caller reports back.
pub enum Event {
    /// Start the session.
    Begin,
    /// The file was read whole.
    FileRead { data: Vec<u8> },
    /// The file could not be read.
    FileUnreadable { message: String },
    /// The post completed with this status.
    ResponseStatus { status: u16 },
    /// The post never completed.
    TransportFailed { message: String },
    /// The reply body decoded into the expected shape.
    BodyParsed { response: RawServiceResponse },
    /// The reply body did not have the expected shape.
    BodyMalformed { message: String },
}

impl OcrSession {
    /// Which events may be reported in this state.
    pub open spec fn accepts(self, event: Event) -> bool {
        match (self, event) {
            (OcrSession::Ready { .. }, Event::Begin) => true,
            (OcrSession::AwaitingFile { .. }, Event::FileRead { .. }) => true,
            (OcrSession::AwaitingFile { .. }, Event::FileUnreadable { .. }) => true,
            (OcrSession::AwaitingStatus, Event::ResponseStatus { .. }) => true,
            (OcrSession::AwaitingStatus, Event::TransportFailed { .. }) => true,
            (OcrSession::AwaitingBody, Event::BodyParsed { .. }) => true,
            (OcrSession::AwaitingBody, Event::BodyMalformed { .. }) => true,
            _ => false,
        }
    }

    /// Takes one step: consumes the state and the event, returns the next
    /// state and the action the caller must perform.
    ///
    /// The contract settles every case. In particular: from a file-path
    /// source the only action before `FileRead` is the read itself, and a
    /// failed read finishes with an IO error, so nothing is ever sent for an
    /// unreadable file; and a status other than 200 finishes with exactly
    /// that status, so the body of such a reply is never decoded.
    pub fn step(self, event: Event) -> (r: (OcrSession, Action))
        requires
            self.accepts(event),
        ensures
            (self is Ready && self->Ready_source is FilePath) ==> (r.0 is AwaitingFile
                && r.0->AwaitingFile_language == self->Ready_language && r.0->AwaitingFile_path
                == self->Ready_source->FilePath_0 && r.1 is ReadFile && r.1->ReadFile_path
                == self->Ready_source->FilePath_0),
            (self is Ready && self->Ready_source is Base64) ==> (r.0 is AwaitingStatus && r.1
                is Send && r.1->Send_form.language == self->Ready_language
                && r.1->Send_form.image is InlineText && r.1->Send_form.image->InlineText_value@
                == "data:image/jpeg;base64,"@ + self->Ready_source->Base64_0@),
            (self is AwaitingFile && event is FileRead) ==> (r.0 is AwaitingStatus && r.1 is Send
                && r.1->Send_form.language == self->AwaitingFile_language
                && r.1->Send_form.image is File && r.1->Send_form.image->File_file_name@
                == file_part_name(self->AwaitingFile_path@) && r.1->Send_form.image->File_data
                == event->FileRead_data),
            event is FileUnreadable ==> (r.0 is Done && r.1 is Finish && r.1->Finish_outcome
                == Err::<OcrResult, OcrError>(
                OcrError::IoError(event->FileUnreadable_message),
            )),
            (event is ResponseStatus && event->ResponseStatus_status == 200) ==> (r.0
                is AwaitingBody && r.1 is ReadBody),
            (event is ResponseStatus && event->ResponseStatus_status != 200) ==> (r.0 is Done
                && r.1 is Finish && r.1->Finish_outcome == Err::<OcrResult, OcrError>(
                OcrError::HttpStatusError(event->ResponseStatus_status),
            )),
            event is TransportFailed ==> (r.0 is Done && r.1 is Finish && r.1->Finish_outcome
                == Err::<OcrResult, OcrError>(
                OcrError::NetworkError(event->TransportFailed_message),
            )),
            event is BodyParsed ==> (r.0 is Done && r.1 is Finish && is_normalized_outcome(
                event->BodyParsed_response,
                r.1->Finish_outcome,
            )),
            event is BodyMalformed ==> (r.0 is Done && r.1 is Finish && r.1->Finish_outcome
                == Err::<OcrResult, OcrError>(
                OcrError::DeserializationError(event->BodyMalformed_message),
            )),
            r.1 is Finish <==> r.0 is Done,
    {
        match (self, event) {
            (OcrSession::Ready { language, source }, Event::Begin) => {
                match source {
                    ImageSource::FilePath(path) => {
                        let action_path = path.clone();
                        (
                            OcrSession::AwaitingFile { language, path },
                            Action::ReadFile { path: action_path },
                        )
                    },
                    ImageSource::Base64(payload) => {
                        let form = form_for_inline(language, payload.as_str());
                        (OcrSession::AwaitingStatus, Action::Send { form })
                    },
                }
            },
            (OcrSession::AwaitingFile { language, path }, Event::FileRead { data }) => {
                let form = form_for_file(language, path.as_str(), data);
                (OcrSession::AwaitingStatus, Action::Send { form })
            },
            (OcrSession::AwaitingFile { .. }, Event::FileUnreadable { message }) => {
                (
                    OcrSession::Done,
                    Action::Finish { outcome: Err(OcrError::IoError(message)) },
                )
            },
            (OcrSession::AwaitingStatus, Event::ResponseStatus { status }) => {
                match check_status(status) {
                    Ok(()) => (OcrSession::AwaitingBody, Action::ReadBody),
                    Err(e) => (OcrSession::Done, Action::Finish { outcome: Err(e) }),
                }
            },
            (OcrSession::AwaitingStatus, Event::TransportFailed { message }) => {
                (
                    OcrSession::Done,
                    Action::Finish { outcome: Err(OcrError::NetworkError(message)) },
                )
            },
            (OcrSession::AwaitingBody, Event::BodyParsed { response }) => {
                let outcome = normalize_response(response);
                (OcrSession::Done, Action::Finish { outcome })
            },
            (OcrSession::AwaitingBody, Event::BodyMalformed { message }) => {
                (
                    OcrSession::Done,
                    Action::Finish { outcome: Err(OcrError::DeserializationError(message)) },
                )
            },
            _ => {
                proof {
                    assert(false);
                }
                (OcrSession::Done, Action::ReadBody)
            },
        }
    }
}

} // verus!
