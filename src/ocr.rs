use vstd::prelude::*;
use vstd::string::StringExecFns;

use crate::config::Config;
use crate::error::{unreadable_body_text, XtractError};
use crate::payload::{base64_png_of, encode_image_to_base64, load_image, png_encodable, DecodedImage};
use crate::request::{build_request, completions_url, completions_url_of, is_request_for, prompt_view, ChatCompletionRequest};

verus! {

/// The message of one choice of a chat-completion response.
#[derive(Clone, Debug)]
pub struct ResponseMessage {
    pub content: String,
}

/// One choice of a chat-completion response.
#[derive(Clone, Debug)]
pub struct Choice {
    pub message: ResponseMessage,
}

/// A chat-completion response; only the first choice is used.
#[derive(Clone, Debug)]
pub struct ChatCompletionResponse {
    pub choices: Vec<Choice>,
}

/// What came back from the service for one request.
pub enum ApiReply {
    /// The status was outside the success range; `body` is the response
    /// text, or `None` when it could not be read.
    Failure { status: u16, body: Option<String> },
    /// The status was a success; `parsed` is the body read as a
    /// chat-completion response, or the reason it could not be.
    Success { parsed: Result<ChatCompletionResponse, String> },
}

/// Whether an HTTP status code is in the success range.
pub open spec fn is_success_code(status: u16) -> bool {
    200 <= status && status < 300
}

/// The outcome that a reply stands for.
pub open spec fn reply_outcome(reply: ApiReply, r: Result<String, XtractError>) -> bool {
    match reply {
        ApiReply::Failure { status, body } => r matches Err(XtractError::Api { status: s, body: b })
            && s == status && b@ == match body {
            Some(t) => t@,
            None => unreadable_body_text(),
        },
        ApiReply::Success { parsed } => match parsed {
            Err(d) => r matches Err(XtractError::Parse { detail }) && detail@ == d@,
            Ok(resp) => if resp.choices@.len() == 0 {
                r matches Err(XtractError::NoChoice)
            } else {
                r matches Ok(t) && t@ == resp.choices@[0].message.content@
            },
        },
    }
}

/// Whether an HTTP status code is in the success range.
pub fn is_success_status(status: u16) -> (r: bool)
    ensures
        r == is_success_code(status),
{
    200 <= status && status < 300
}

/// Turns a reply into the extracted text or the error it stands for: a
/// failed status carries its code and body, a body that does not parse is a
/// parse error, and a response without any choice is an error of its own.
pub fn interpret_reply(reply: ApiReply) -> (r: Result<String, XtractError>)
    ensures
        reply_outcome(reply, r),
{
    match reply {
        ApiReply::Failure { status, body } => {
            let body = match body {
                Some(t) => t,
                None => String::from_str("Failed to read error response body"),
            };
            Err(XtractError::Api { status, body })
        },
        ApiReply::Success { parsed } => match parsed {
            Err(detail) => Err(XtractError::Parse { detail }),
            Ok(resp) => {
                if resp.choices.len() == 0 {
                    Err(XtractError::NoChoice)
                } else {
                    Ok(resp.choices[0].message.content.clone())
                }
            },
        },
    }
}

/// `r` is what preparing the request for `img` under `config` gives: the
/// request for its base64 PNG payload exactly when the image can be written
/// as PNG, an encode error otherwise.
pub open spec fn request_outcome(
    config: Config,
    img: DecodedImage,
    prompt: Option<Seq<char>>,
    r: Result<ChatCompletionRequest, XtractError>,
) -> bool {
    &&& r is Ok <==> png_encodable(img.image())
    &&& r matches Ok(req) ==> is_request_for(req, config, base64_png_of(img.image()), prompt)
    &&& r matches Err(e) ==> e is Encode
}

/// Client of the remote OCR service: it prepares requests and reads replies
/// under one configuration.
pub struct OcrClient {
    pub config: Config,
}

impl OcrClient {
    pub fn new(config: Config) -> (r: Self)
        ensures
            r.config == config,
    {
        OcrClient { config }
    }

    /// The address that requests are posted to.
    pub fn endpoint(&self) -> (r: String)
        ensures
            r@ == completions_url_of(self.config.ocr.api_endpoint@),
    {
        completions_url(self.config.ocr.api_endpoint.as_str())
    }

    /// The request for an image already encoded as base64 PNG.
    pub fn request_from_base64(&self, base64_img: &str, prompt: Option<&str>) -> (r:
        ChatCompletionRequest)
        ensures
            is_request_for(r, self.config, base64_img@, prompt_view(prompt)),
    {
        build_request(&self.config, base64_img, prompt)
    }

    /// The request for a decoded image: its payload is what
    /// `encode_image_to_base64` gives for the same image.
    pub fn request_from_decoded(&self, img: &DecodedImage, prompt: Option<&str>) -> (r: Result<
        ChatCompletionRequest,
        XtractError,
    >)
        ensures
            request_outcome(self.config, *img, prompt_view(prompt), r),
    {
        match encode_image_to_base64(img) {
            Ok(b64) => Ok(build_request(&self.config, b64.as_str(), prompt)),
            Err(e) => Err(e),
        }
    }

    /// The request for the contents of an image file. A file that does not
    /// decode fails with a load error, and then there is no request to send;
    /// otherwise the outcome is that of `request_from_decoded` on the decoded
    /// image.
    pub fn request_from_image(&self, image_bytes: &[u8], prompt: Option<&str>) -> (r: Result<
        ChatCompletionRequest,
        XtractError,
    >)
        ensures
            (r matches Err(e) && e is Load) || exists|img: DecodedImage| #[trigger]
                request_outcome(self.config, img, prompt_view(prompt), r),
    {
        let img = match load_image(image_bytes) {
            Ok(img) => img,
            Err(e) => return Err(e),
        };
        let r = self.request_from_decoded(&img, prompt);
        assert(request_outcome(self.config, img, prompt_view(prompt), r));
        r
    }
}

} // verus!
