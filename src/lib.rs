//! Document text extraction through a remote OCR chat-completion API.
//!
//! The library holds the logic: configuration defaults and the decision made
//! when loading them, the choice of prompt, the construction of the multimodal
//! request, the image pipeline that turns file bytes into a base64 PNG
//! payload, the interpretation of the service's reply and the batch rule that
//! skips failed images. Transport and file access are left to the caller.
pub mod config;
pub mod error;
pub mod extraction;
pub mod ocr;
pub mod payload;
pub mod request;

pub use config::{Config, ExtractionConfig, LoadPlan, OcrConfig};
pub use error::XtractError;
pub use extraction::{DocumentExtractor, DocumentMetadata, ExtractedDocument};
pub use ocr::{ApiReply, ChatCompletionResponse, Choice, OcrClient, ResponseMessage};
pub use payload::{encode_image_to_base64, load_image, DecodedImage};
pub use request::{ChatCompletionRequest, ContentPart, ImageUrlData, Message};
