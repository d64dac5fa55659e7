//! A client library for a text-extraction (OCR) web service.
//!
//! The library models the whole request as plain data: an [`ocr::ImageSource`]
//! names the image, a multipart form is built from it, the service's reply is
//! normalized into an [`ocr::OcrResult`] or an [`ocr::OcrError`]. The
//! surrounding program performs the file read and the HTTP round trip and
//! feeds every intermediate value back through the library, so the decisions
//! themselves are verified.

pub mod encode;
pub mod form;
pub mod ocr;
pub mod session;
pub mod text;
