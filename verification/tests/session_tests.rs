use ocr_client::form::ImagePart;
use ocr_client::ocr::ImageSource;
use ocr_client::ocr::OcrError;
use ocr_client::ocr::ParsedSegment;
use ocr_client::ocr::RawServiceResponse;
use ocr_client::session::Action;
use ocr_client::session::Event;
use ocr_client::session::OcrSession;

fn ready(source: ImageSource) -> OcrSession {
    OcrSession::Ready { language: "por".to_string(), source }
}

#[test]
fn a_path_source_first_asks_for_the_file_read() {
    let session = ready(ImageSource::FilePath("scans/p1.png".to_string()));
    let (_, action) = session.step(Event::Begin);
    match action {
        Action::ReadFile { path } => assert_eq!(path, "scans/p1.png"),
        _ => panic!("the first action for a path source must be the file read"),
    }
}

#[test]
fn an_unreadable_file_finishes_without_any_send() {
    let session = ready(ImageSource::FilePath("scans/missing.png".to_string()));
    let (session, action) = session.step(Event::Begin);
    assert!(matches!(action, Action::ReadFile { .. }));
    let (_, action) = session.step(Event::FileUnreadable {
        message: "No such file or directory".to_string(),
    });
    match action {
        Action::Finish { outcome: Err(OcrError::IoError(m)) } => {
            assert_eq!(m, "No such file or directory");
        }
        _ => panic!("an unreadable file must settle the call as an IO error"),
    }
}

#[test]
fn a_read_file_is_sent_under_its_base_name() {
    let session = ready(ImageSource::FilePath("scans/p1.png".to_string()));
    let (session, _) = session.step(Event::Begin);
    let (_, action) = session.step(Event::FileRead { data: vec![9, 8, 7] });
    match action {
        Action::Send { form } => {
            assert_eq!(form.language, "por");
            match form.image {
                ImagePart::File { file_name, data } => {
                    assert_eq!(file_name, "p1.png");
                    assert_eq!(data, vec![9, 8, 7]);
                }
                _ => panic!("a path source must submit a file part"),
            }
        }
        _ => panic!("a read file must be sent next"),
    }
}

#[test]
fn an_inline_source_sends_at_once_with_the_prefix() {
    let session = ready(ImageSource::Base64("QUJD".to_string()));
    let (_, action) = session.step(Event::Begin);
    match action {
        Action::Send { form } => match form.image {
            ImagePart::InlineText { value } => {
                assert_eq!(value, "data:image/jpeg;base64,QUJD");
            }
            _ => panic!("an inline source must submit a text part"),
        },
        _ => panic!("an inline source must be sent at once"),
    }
}

#[test]
fn a_bad_status_finishes_before_the_body_is_read() {
    let session = ready(ImageSource::Base64("QUJD".to_string()));
    let (session, _) = session.step(Event::Begin);
    let (_, action) = session.step(Event::ResponseStatus { status: 500 });
    match action {
        Action::Finish { outcome: Err(OcrError::HttpStatusError(code)) } => {
            assert_eq!(code, 500);
        }
        _ => panic!("a status other than 200 must settle the call with that status"),
    }
}

#[test]
fn a_transport_failure_is_a_network_error() {
    let session = ready(ImageSource::Base64("QUJD".to_string()));
    let (session, _) = session.step(Event::Begin);
    let (_, action) = session.step(Event::TransportFailed {
        message: "connection refused".to_string(),
    });
    match action {
        Action::Finish { outcome: Err(OcrError::NetworkError(m)) } => {
            assert_eq!(m, "connection refused");
        }
        _ => panic!("a transport failure must settle the call as a network error"),
    }
}

#[test]
fn a_malformed_body_is_a_deserialization_error() {
    let session = ready(ImageSource::Base64("QUJD".to_string()));
    let (session, _) = session.step(Event::Begin);
    let (session, action) = session.step(Event::ResponseStatus { status: 200 });
    assert!(matches!(action, Action::ReadBody));
    let (_, action) = session.step(Event::BodyMalformed {
        message: "expected a list".to_string(),
    });
    match action {
        Action::Finish { outcome: Err(OcrError::DeserializationError(m)) } => {
            assert_eq!(m, "expected a list");
        }
        _ => panic!("a malformed body must settle the call as a deserialization error"),
    }
}

#[test]
fn a_full_session_concatenates_the_parsed_texts() {
    let session = ready(ImageSource::Base64("QUJD".to_string()));
    let (session, _) = session.step(Event::Begin);
    let (session, _) = session.step(Event::ResponseStatus { status: 200 });
    let response = RawServiceResponse {
        parsed_results: vec![
            ParsedSegment { parsed_text: "a".to_string() },
            ParsedSegment { parsed_text: "b".to_string() },
        ],
        is_errored: None,
        error_message: None,
    };
    let (session, action) = session.step(Event::BodyParsed { response });
    assert!(matches!(session, OcrSession::Done));
    match action {
        Action::Finish { outcome: Ok(result) } => assert_eq!(result.text, "a\nb"),
        _ => panic!("a clean reply must settle the call with the joined text"),
    }
}
