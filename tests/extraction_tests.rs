use std::io::Cursor;

use base64::Engine;
use xtract::config::{
    default_api_endpoint, default_max_tokens, default_model, default_output_format,
    default_preserve_layout, default_temperature_bits,
};
use xtract::error::decimal_string;
use xtract::extraction::render_documents;
use xtract::ocr::{interpret_reply, is_success_status};
use xtract::payload::image_file_to_base64;
use xtract::request::{build_request, completions_url, data_url, default_prompt};
use xtract::{
    encode_image_to_base64, load_image, ApiReply, ChatCompletionRequest, ChatCompletionResponse,
    Choice, Config, ContentPart, DocumentExtractor, DocumentMetadata, ExtractedDocument,
    OcrClient, ResponseMessage, XtractError,
};

fn png_bytes(width: u32, height: u32) -> Vec<u8> {
    let img = image::DynamicImage::ImageRgb8(image::RgbImage::new(width, height));
    let mut buffer = Cursor::new(Vec::new());
    img.write_to(&mut buffer, image::ImageFormat::Png).unwrap();
    buffer.into_inner()
}

fn reply_with(contents: &[&str]) -> ApiReply {
    let choices = contents
        .iter()
        .map(|c| Choice { message: ResponseMessage { content: c.to_string() } })
        .collect();
    ApiReply::Success { parsed: Ok(ChatCompletionResponse { choices }) }
}

fn prompt_of(req: &ChatCompletionRequest) -> String {
    match &req.messages[0].content[1] {
        ContentPart::Text { text } => text.clone(),
        ContentPart::ImageUrl { .. } => panic!("the second part is not text"),
    }
}

fn url_of(req: &ChatCompletionRequest) -> String {
    match &req.messages[0].content[0] {
        ContentPart::ImageUrl { image_url } => image_url.url.clone(),
        ContentPart::Text { .. } => panic!("the first part is not an image"),
    }
}

/// Runs one image through the library with a service that always answers.
fn extract_with_answering_service(
    extractor: &DocumentExtractor,
    path: &str,
    bytes: &[u8],
) -> Result<ExtractedDocument, XtractError> {
    let req = extractor.ocr_client.request_from_image(bytes, None)?;
    assert_eq!(req.messages.len(), 1);
    let text = interpret_reply(reply_with(&["extracted text"]))?;
    Ok(extractor.document(path, text))
}

#[test]
fn test_extractor_creation() {
    let config = Config::default();
    let extractor = DocumentExtractor::new(config);
    assert_eq!(extractor.config.extraction.output_format, "markdown");
}

#[test]
fn test_document_metadata() {
    let metadata = DocumentMetadata {
        source: "test.png".to_string(),
        page_count: Some(1),
        confidence_bits: Some(0.95f32.to_bits()),
    };
    assert_eq!(metadata.source, "test.png");
    assert_eq!(metadata.page_count, Some(1));
}

#[test]
fn test_ocr_client_creation() {
    let config = Config::default();
    let client = OcrClient::new(config);
    assert_eq!(client.config.ocr.model, "deepseek-ocr");
}

#[test]
fn defaults_have_documented_values() {
    assert_eq!(default_api_endpoint(), "http://localhost:8000/v1");
    assert_eq!(default_model(), "deepseek-ocr");
    assert_eq!(default_max_tokens(), 512);
    assert_eq!(f32::from_bits(default_temperature_bits()), 0.0f32);
    assert_eq!(default_output_format(), "markdown");
    assert!(default_preserve_layout());
    let config = Config::default();
    assert_eq!(config.ocr.api_endpoint, "http://localhost:8000/v1");
    assert_eq!(config.ocr.max_tokens, 512);
    assert!(config.extraction.preserve_layout);
}

#[test]
fn load_without_file_writes_defaults_once() {
    let first = Config::plan_load(None);
    assert!(first.persist);
    assert_eq!(first.config.ocr.model, "deepseek-ocr");
    let second = Config::plan_load(Some(first.config.clone()));
    assert!(!second.persist);
    assert_eq!(second.config.ocr.model, first.config.ocr.model);
    assert_eq!(second.config.ocr.api_endpoint, first.config.ocr.api_endpoint);
    assert_eq!(second.config.ocr.max_tokens, first.config.ocr.max_tokens);
    assert_eq!(second.config.extraction.output_format, first.config.extraction.output_format);
}

#[test]
fn load_keeps_an_existing_file() {
    let mut stored = Config::default();
    stored.ocr.model = "other-model".to_string();
    stored.extraction.output_format = "text".to_string();
    let plan = Config::plan_load(Some(stored));
    assert!(!plan.persist);
    assert_eq!(plan.config.ocr.model, "other-model");
    assert_eq!(plan.config.extraction.output_format, "text");
}

#[test]
fn decimal_notation() {
    assert_eq!(decimal_string(0), "0");
    assert_eq!(decimal_string(7), "7");
    assert_eq!(decimal_string(500), "500");
    assert_eq!(decimal_string(65535), "65535");
}

#[test]
fn failed_status_message_names_code_and_body() {
    let reply = ApiReply::Failure { status: 500, body: Some("server error".to_string()) };
    let err = interpret_reply(reply).unwrap_err();
    assert!(matches!(err, XtractError::Api { status: 500, .. }));
    let message = err.message();
    assert!(message.contains("500"));
    assert!(message.contains("server error"));
    assert_eq!(message, "OCR API request failed with status 500: server error");
}

#[test]
fn unreadable_failure_body_gets_placeholder() {
    let err = interpret_reply(ApiReply::Failure { status: 404, body: None }).unwrap_err();
    match err {
        XtractError::Api { status, body } => {
            assert_eq!(status, 404);
            assert_eq!(body, "Failed to read error response body");
        }
        other => panic!("unexpected error {:?}", other),
    }
}

#[test]
fn empty_choices_is_no_choice_error() {
    let err = interpret_reply(reply_with(&[])).unwrap_err();
    assert!(matches!(err, XtractError::NoChoice));
    assert!(!matches!(err, XtractError::Parse { .. }));
    assert_eq!(err.message(), "No response from OCR API");
}

#[test]
fn malformed_body_is_parse_error() {
    let err = interpret_reply(ApiReply::Success { parsed: Err("expected value".to_string()) })
        .unwrap_err();
    assert!(matches!(err, XtractError::Parse { .. }));
    assert_eq!(err.message(), "Failed to parse OCR API response: expected value");
}

#[test]
fn first_choice_is_the_text() {
    let text = interpret_reply(reply_with(&["first", "second"])).unwrap();
    assert_eq!(text, "first");
}

#[test]
fn success_range() {
    assert!(!is_success_status(199));
    assert!(is_success_status(200));
    assert!(is_success_status(299));
    assert!(!is_success_status(300));
    assert!(!is_success_status(500));
}

#[test]
fn markdown_default_prompt() {
    let config = Config::default();
    let req = build_request(&config, "QUJD", None);
    let text = prompt_of(&req);
    assert!(text.starts_with("<|grounding|>"));
    assert!(text.contains("markdown"));
    assert_eq!(
        text,
        "<|grounding|>Convert this document to markdown, preserving layout and structure."
    );
}

#[test]
fn text_default_prompt() {
    let mut config = Config::default();
    config.extraction.output_format = "text".to_string();
    let req = build_request(&config, "QUJD", None);
    let text = prompt_of(&req);
    assert!(text.starts_with("<|grounding|>"));
    assert!(!text.contains("markdown"));
    assert_eq!(text, "<|grounding|>Extract all text from this document.");
    assert_eq!(default_prompt(&"text".to_string()), text);
}

#[test]
fn request_layout() {
    let mut config = Config::default();
    config.ocr.model = "m1".to_string();
    config.ocr.max_tokens = 77;
    config.ocr.temperature_bits = 0.5f32.to_bits();
    let req = build_request(&config, "QUJD", Some("read it"));
    assert_eq!(req.model, "m1");
    assert_eq!(req.max_tokens, 77);
    assert_eq!(f32::from_bits(req.temperature_bits), 0.5f32);
    assert_eq!(req.messages.len(), 1);
    assert_eq!(req.messages[0].role, "user");
    assert_eq!(req.messages[0].content.len(), 2);
    assert_eq!(url_of(&req), "data:image/png;base64,QUJD");
    assert_eq!(prompt_of(&req), "read it");
}

#[test]
fn urls() {
    assert_eq!(data_url("xyz"), "data:image/png;base64,xyz");
    assert_eq!(completions_url("http://h:1/v1"), "http://h:1/v1/chat/completions");
    let client = OcrClient::new(Config::default());
    assert_eq!(client.endpoint(), "http://localhost:8000/v1/chat/completions");
}

#[test]
fn corrupt_image_is_load_error() {
    let err = load_image(b"not an image at all").unwrap_err();
    assert!(matches!(err, XtractError::Load { .. }));
    let client = OcrClient::new(Config::default());
    let err = client.request_from_image(b"\x89PNG broken", None).unwrap_err();
    assert!(matches!(err, XtractError::Load { .. }));
    assert!(err.message().starts_with("Failed to load image: "));
}

#[test]
fn png_round_trip_keeps_dimensions() {
    let img = load_image(&png_bytes(7, 5)).unwrap();
    let encoded = encode_image_to_base64(&img).unwrap();
    assert!(encoded.starts_with("iVBORw0KGgo"));
    let png = base64::engine::general_purpose::STANDARD.decode(encoded.as_bytes()).unwrap();
    let back = image::load_from_memory(&png).unwrap();
    assert_eq!(back.width(), 7);
    assert_eq!(back.height(), 5);
}

#[test]
fn image_file_payload_is_base64_png() {
    let b64 = image_file_to_base64(&png_bytes(2, 3)).unwrap();
    assert_ne!(b64.as_bytes(), png_bytes(2, 3).as_slice());
    let png = base64::engine::general_purpose::STANDARD.decode(b64.as_bytes()).unwrap();
    assert_eq!(&png[0..8], &[137u8, 80, 78, 71, 13, 10, 26, 10]);
    let client = OcrClient::new(Config::default());
    let req = client.request_from_image(&png_bytes(2, 3), None).unwrap();
    assert_eq!(url_of(&req), format!("data:image/png;base64,{}", b64));
}

#[test]
fn document_metadata_from_path() {
    let extractor = DocumentExtractor::new(Config::default());
    let doc = extractor.document("scans/page one.png", "hello".to_string());
    assert_eq!(doc.text, "hello");
    assert_eq!(doc.format, "markdown");
    assert_eq!(doc.metadata.source, "page one.png");
    assert_eq!(doc.metadata.page_count, Some(1));
    assert_eq!(doc.metadata.confidence_bits, None);
    let doc = extractor.document("..", "x".to_string());
    assert_eq!(doc.metadata.source, "unknown");
    let doc = extractor.document("", "x".to_string());
    assert_eq!(doc.metadata.source, "unknown");
}

#[test]
fn batch_skips_the_corrupt_image() {
    let extractor = DocumentExtractor::new(Config::default());
    let inputs: Vec<(&str, Vec<u8>)> = vec![
        ("good.png", png_bytes(3, 3)),
        ("corrupt.png", b"garbage".to_vec()),
        ("good2.png", png_bytes(4, 2)),
    ];
    let outcomes = inputs
        .iter()
        .map(|(path, bytes)| extract_with_answering_service(&extractor, path, bytes))
        .collect();
    let docs = DocumentExtractor::collect_batch(outcomes);
    assert_eq!(docs.len(), 2);
    assert_eq!(docs[0].metadata.source, "good.png");
    assert_eq!(docs[1].metadata.source, "good2.png");
}

#[test]
fn batch_count_is_inputs_less_failures() {
    let extractor = DocumentExtractor::new(Config::default());
    let outcomes = vec![
        Err(XtractError::NoChoice),
        Ok(extractor.document("a.png", "A".to_string())),
        Err(XtractError::Load { detail: "x".to_string() }),
        Ok(extractor.document("b.png", "B".to_string())),
        Err(XtractError::Api { status: 500, body: "e".to_string() }),
    ];
    let docs = DocumentExtractor::collect_batch(outcomes);
    assert_eq!(docs.len(), 5 - 3);
    assert_eq!(docs[0].text, "A");
    assert_eq!(docs[1].text, "B");
}

#[test]
fn all_failed_batch_is_empty() {
    let docs = DocumentExtractor::collect_batch(vec![Err(XtractError::NoChoice)]);
    assert!(docs.is_empty());
    assert!(DocumentExtractor::collect_batch(Vec::new()).is_empty());
}

#[test]
fn combined_output_layout() {
    let extractor = DocumentExtractor::new(Config::default());
    let docs = vec![
        extractor.document("a.png", "first".to_string()),
        extractor.document("dir/b.jpg", "second".to_string()),
    ];
    assert_eq!(
        render_documents(&docs),
        "=== a.png ===\n\nfirst\n\n---\n\n=== b.jpg ===\n\nsecond\n"
    );
    assert_eq!(render_documents(&docs[..1].to_vec()), "=== a.png ===\n\nfirst\n");
    assert_eq!(render_documents(&Vec::new()), "");
}

#[test]
fn reply_becomes_document_or_error() {
    let extractor = DocumentExtractor::new(Config::default());
    let doc = extractor.complete("in/scan.jpg", reply_with(&["# Title"])).unwrap();
    assert_eq!(doc.text, "# Title");
    assert_eq!(doc.metadata.source, "scan.jpg");
    assert_eq!(doc.format, "markdown");
    let err = extractor.complete("in/scan.jpg", reply_with(&[])).unwrap_err();
    assert!(matches!(err, XtractError::NoChoice));
    let err = extractor
        .complete("in/scan.jpg", ApiReply::Failure { status: 503, body: Some("busy".to_string()) })
        .unwrap_err();
    assert_eq!(err.message(), "OCR API request failed with status 503: busy");
}

#[test]
fn encoding_is_a_function_of_the_image() {
    let img = load_image(&png_bytes(6, 2)).unwrap();
    let a = encode_image_to_base64(&img).unwrap();
    let b = encode_image_to_base64(&img).unwrap();
    assert_eq!(a, b);
    assert_eq!(a.len() % 4, 0);
}

#[test]
fn request_from_decoded_image_carries_its_payload() {
    let client = OcrClient::new(Config::default());
    let img = load_image(&png_bytes(3, 4)).unwrap();
    let b64 = encode_image_to_base64(&img).unwrap();
    let req = client.request_from_decoded(&img, Some("go")).unwrap();
    let same = client.request_from_base64(&b64, Some("go"));
    assert_eq!(url_of(&req), url_of(&same));
    assert_eq!(prompt_of(&req), "go");
    let from_file = client.request_from_image(&png_bytes(3, 4), Some("go")).unwrap();
    assert_eq!(url_of(&from_file), url_of(&same));
}

#[test]
fn transport_failure_message() {
    let err = XtractError::Transport { detail: "timed out".to_string() };
    assert_eq!(err.message(), "Failed to send request to OCR API: timed out");
}
