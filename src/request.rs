use vstd::prelude::*;
use vstd::string::StringExecFns;

use crate::config::Config;
use crate::error::contains;

verus! {

/// The leading token that asks the model for layout-aware extraction.
pub open spec fn grounding_marker() -> Seq<char> {
    "<|grounding|>"@
}

/// Default prompt when the output format is markdown.
pub open spec fn markdown_prompt() -> Seq<char> {
    "<|grounding|>Convert this document to markdown, preserving layout and structure."@
}

/// Default prompt for every other output format.
pub open spec fn plain_text_prompt() -> Seq<char> {
    "<|grounding|>Extract all text from this document."@
}

/// The prompt used when the caller gives none.
pub open spec fn default_prompt_for(output_format: Seq<char>) -> Seq<char> {
    if output_format == "markdown"@ {
        markdown_prompt()
    } else {
        plain_text_prompt()
    }
}

/// The prompt actually sent: the caller's, or the default of the format.
pub open spec fn prompt_text(output_format: Seq<char>, prompt: Option<Seq<char>>) -> Seq<char> {
    match prompt {
        Some(p) => p,
        None => default_prompt_for(output_format),
    }
}

/// The data URL that embeds a base64 PNG payload.
pub open spec fn data_url_of(base64_png: Seq<char>) -> Seq<char> {
    "data:image/png;base64,"@ + base64_png
}

/// The address that chat-completion requests are posted to.
pub open spec fn completions_url_of(api_endpoint: Seq<char>) -> Seq<char> {
    api_endpoint + "/chat/completions"@
}

/// The URL of an image part.
#[derive(Clone, Debug)]
pub struct ImageUrlData {
    pub url: String,
}

/// One part of a multimodal message.
#[derive(Clone, Debug)]
pub enum ContentPart {
    Text { text: String },
    ImageUrl { image_url: ImageUrlData },
}

/// A chat message.
#[derive(Clone, Debug)]
pub struct Message {
    pub role: String,
    pub content: Vec<ContentPart>,
}

/// The body of a chat-completion request.
#[derive(Clone, Debug)]
pub struct ChatCompletionRequest {
    pub model: String,
    pub messages: Vec<Message>,
    pub max_tokens: usize,
    /// Bit pattern of the single-precision sampling temperature.
    pub temperature_bits: u32,
}

/// `req` is the request for the base64 PNG payload `base64_png` under `config`:
/// the settings copied verbatim, and one user message whose image part comes
/// before its text part.
pub open spec fn is_request_for(
    req: ChatCompletionRequest,
    config: Config,
    base64_png: Seq<char>,
    prompt: Option<Seq<char>>,
) -> bool {
    &&& req.model@ == config.ocr.model@
    &&& req.max_tokens == config.ocr.max_tokens
    &&& req.temperature_bits == config.ocr.temperature_bits
    &&& req.messages@.len() == 1
    &&& req.messages@[0].role@ == "user"@
    &&& req.messages@[0].content@.len() == 2
    &&& match req.messages@[0].content@[0] {
        ContentPart::ImageUrl { image_url } => image_url.url@ == data_url_of(base64_png),
        ContentPart::Text { .. } => false,
    }
    &&& match req.messages@[0].content@[1] {
        ContentPart::Text { text } => text@ == prompt_text(config.extraction.output_format@, prompt),
        ContentPart::ImageUrl { .. } => false,
    }
}

/// Embeds a base64 PNG payload in a data URL.
pub fn data_url(base64_png: &str) -> (r: String)
    ensures
        r@ == data_url_of(base64_png@),
{
    let mut s = String::from_str("data:image/png;base64,");
    s.append(base64_png);
    s
}

/// The address of the chat-completion resource under `api_endpoint`.
pub fn completions_url(api_endpoint: &str) -> (r: String)
    ensures
        r@ == completions_url_of(api_endpoint@),
{
    let mut s = String::from_str(api_endpoint);
    s.append("/chat/completions");
    s
}

/// The prompt used when the caller gives none, chosen by the output format.
pub fn default_prompt(output_format: &String) -> (r: String)
    ensures
        r@ == default_prompt_for(output_format@),
{
    let markdown = String::from_str("markdown");
    if output_format.eq(&markdown) {
        String::from_str(
            "<|grounding|>Convert this document to markdown, preserving layout and structure.",
        )
    } else {
        String::from_str("<|grounding|>Extract all text from this document.")
    }
}

/// The view of an optional prompt.
pub open spec fn prompt_view(prompt: Option<&str>) -> Option<Seq<char>> {
    match prompt {
        Some(p) => Some(p@),
        None => None,
    }
}

/// Builds the request that asks for the text in the image whose base64 PNG
/// payload is `base64_png`.
pub fn build_request(config: &Config, base64_png: &str, prompt: Option<&str>) -> (r:
    ChatCompletionRequest)
    ensures
        is_request_for(r, *config, base64_png@, prompt_view(prompt)),
{
    let text = match prompt {
        Some(p) => String::from_str(p),
        None => default_prompt(&config.extraction.output_format),
    };
    let image_part = ContentPart::ImageUrl { image_url: ImageUrlData { url: data_url(base64_png) } };
    let text_part = ContentPart::Text { text };
    let mut content: Vec<ContentPart> = Vec::new();
    content.push(image_part);
    content.push(text_part);
    let message = Message { role: String::from_str("user"), content };
    let mut messages: Vec<Message> = Vec::new();
    messages.push(message);
    ChatCompletionRequest {
        model: config.ocr.model.clone(),
        messages,
        max_tokens: config.ocr.max_tokens,
        temperature_bits: config.ocr.temperature_bits,
    }
}

/// The text part of a request built by this module.
pub open spec fn request_prompt(req: ChatCompletionRequest) -> Seq<char> {
    match req.messages@[0].content@[1] {
        ContentPart::Text { text } => text@,
        ContentPart::ImageUrl { .. } => Seq::empty(),
    }
}

/// Without a prompt of the caller's, the text part of a request opens with
/// the grounding marker; it asks for markdown when the output format is
/// `"markdown"`, and for every other format it never mentions markdown.
pub proof fn lemma_default_prompt_of_request(
    req: ChatCompletionRequest,
    config: Config,
    base64_png: Seq<char>,
)
    requires
        is_request_for(req, config, base64_png, None),
    ensures
        request_prompt(req).len() >= grounding_marker().len(),
        request_prompt(req).subrange(0, grounding_marker().len() as int) == grounding_marker(),
        config.extraction.output_format@ == "markdown"@ ==> contains(
            request_prompt(req),
            "markdown"@,
        ),
        config.extraction.output_format@ != "markdown"@ ==> !contains(
            request_prompt(req),
            "markdown"@,
        ),
{
    reveal_strlit("<|grounding|>");
    reveal_strlit("markdown");
    reveal_strlit("<|grounding|>Convert this document to markdown, preserving layout and structure.");
    reveal_strlit("<|grounding|>Extract all text from this document.");
    let p = request_prompt(req);
    let word: Seq<char> = "markdown"@;
    if config.extraction.output_format@ == "markdown"@ {
        assert(p == markdown_prompt());
        assert(p.subrange(0, 13) =~= grounding_marker());
        assert(p.subrange(38, 38 + word.len() as int) =~= word);
    } else {
        assert(p == plain_text_prompt());
        assert(p.subrange(0, 13) =~= grounding_marker());
        assert forall|j: int| 0 <= j < p.len() implies p[j] != 'k' by {}
        if contains(p, word) {
            let i = choose|i: int|
                0 <= i && i + word.len() <= p.len() && #[trigger] p.subrange(i, i + word.len())
                    == word;
            assert(p.subrange(i, i + word.len())[3] == word[3]);
            assert(p[i + 3] == 'k');
        }
    }
}

} // verus!
