use ocr_client::ocr::check_status;
use ocr_client::ocr::normalize_response;
use ocr_client::ocr::OcrError;
use ocr_client::ocr::ParsedSegment;
use ocr_client::ocr::RawServiceResponse;

fn response_with_texts(texts: &[&str]) -> RawServiceResponse {
    let parsed_results = texts
        .iter()
        .map(|t| ParsedSegment { parsed_text: t.to_string() })
        .collect();
    RawServiceResponse { parsed_results, is_errored: None, error_message: None }
}

#[test]
fn two_segments_join_with_newline() {
    let outcome = normalize_response(response_with_texts(&["a", "b"]));
    let result = outcome.unwrap();
    assert_eq!(result.text, "a\nb");
}

#[test]
fn reordered_segments_join_in_the_new_order() {
    let outcome = normalize_response(response_with_texts(&["b", "a"]));
    assert_eq!(outcome.unwrap().text, "b\na");
}

#[test]
fn three_segments_keep_their_order() {
    let outcome = normalize_response(response_with_texts(&["one", "two", "three"]));
    assert_eq!(outcome.unwrap().text, "one\ntwo\nthree");
}

#[test]
fn no_segments_give_empty_text() {
    let outcome = normalize_response(response_with_texts(&[]));
    assert_eq!(outcome.unwrap().text, "");
}

#[test]
fn single_segment_has_no_separator() {
    let outcome = normalize_response(response_with_texts(&["solo"]));
    assert_eq!(outcome.unwrap().text, "solo");
}

#[test]
fn leading_empty_segment_adds_no_separator() {
    let outcome = normalize_response(response_with_texts(&["", "a"]));
    assert_eq!(outcome.unwrap().text, "a");
}

#[test]
fn interior_empty_segment_keeps_both_separators() {
    let outcome = normalize_response(response_with_texts(&["a", "", "b"]));
    assert_eq!(outcome.unwrap().text, "a\n\nb");
}

#[test]
fn flagged_error_with_message_is_service_reported() {
    let resp = RawServiceResponse {
        parsed_results: vec![],
        is_errored: Some(true),
        error_message: Some(vec!["bad image".to_string()]),
    };
    let outcome = normalize_response(resp);
    match outcome {
        Err(OcrError::ServiceReportedError(m)) => assert_eq!(m, "bad image"),
        other => panic!("expected a service-reported error, got {:?}", other.is_ok()),
    }
}

#[test]
fn flagged_error_messages_join_with_comma() {
    let resp = RawServiceResponse {
        parsed_results: vec![],
        is_errored: Some(true),
        error_message: Some(vec!["first".to_string(), "second".to_string()]),
    };
    match normalize_response(resp) {
        Err(OcrError::ServiceReportedError(m)) => assert_eq!(m, "first, second"),
        other => panic!("expected a service-reported error, got {:?}", other.is_ok()),
    }
}

#[test]
fn flagged_error_without_messages_is_unknown() {
    let resp = RawServiceResponse {
        parsed_results: vec![],
        is_errored: Some(true),
        error_message: None,
    };
    match normalize_response(resp) {
        Err(OcrError::UnknownServiceError) => {}
        other => panic!("expected the unknown service error, got {:?}", other.is_ok()),
    }
}

#[test]
fn unknown_error_carries_the_fixed_message() {
    let err = OcrError::UnknownServiceError;
    assert_eq!(err.message(), "Unknown OCR processing error");
}

#[test]
fn unset_flag_is_success() {
    let resp = RawServiceResponse {
        parsed_results: vec![ParsedSegment { parsed_text: "x".to_string() }],
        is_errored: Some(false),
        error_message: Some(vec!["ignored".to_string()]),
    };
    assert_eq!(normalize_response(resp).unwrap().text, "x");
}

#[test]
fn status_200_passes_the_check() {
    assert!(check_status(200).is_ok());
}

#[test]
fn other_statuses_fail_with_their_code() {
    for status in [199u16, 201, 404, 500] {
        match check_status(status) {
            Err(OcrError::HttpStatusError(code)) => assert_eq!(code, status),
            _ => panic!("expected a status error for {}", status),
        }
    }
}

#[test]
fn status_error_message_spells_the_code() {
    let err = OcrError::HttpStatusError(404);
    assert_eq!(err.message(), "API request failed with status: 404");
}

#[test]
fn status_message_handles_the_extremes() {
    assert_eq!(
        OcrError::HttpStatusError(0).message(),
        "API request failed with status: 0"
    );
    assert_eq!(
        OcrError::HttpStatusError(65535).message(),
        "API request failed with status: 65535"
    );
}

#[test]
fn error_messages_carry_their_text() {
    assert_eq!(OcrError::IoError("gone".to_string()).message(), "gone");
    assert_eq!(OcrError::NetworkError("down".to_string()).message(), "down");
    assert_eq!(OcrError::DeserializationError("mangled".to_string()).message(), "mangled");
    assert_eq!(OcrError::ServiceReportedError("flagged".to_string()).message(), "flagged");
}
