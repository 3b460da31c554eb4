//! What is computed around the Gemini REST calls: the requests that are
//! sent and what is read out of the answers.

use crate::ai::encoding::base64_decoded;
use crate::ai::encoding::base64_of;
use crate::ai::encoding::decode_image;
use crate::ai::encoding::encodable;
use crate::ai::encoding::encode_image;
use crate::ai::mime::detect_image_mime;
use crate::ai::mime::mime_of;
use crate::ai::chat_user_prompt;
use crate::ai::chat_user_text;
use crate::ai::embedding_count_error;
use crate::ai::embedding_count_text;
use crate::ai::image_prompt;
use crate::ai::image_prompt_text;
use crate::error::Error;
use crate::error::ErrorModel;
use crate::models::words_model;
use crate::models::Word;
use crate::prompts::CHAT_SYSTEM;
use crate::prompts::QA_SYSTEM;
use crate::prompts::QA_USER;
use crate::text::concat;
use crate::text::decimal;
use crate::text::decimal_of;
use crate::text::starts_with;
use vstd::prelude::*;
use vstd::string::StrSliceExecFns;
use vstd::string::StringExecFns;

verus! {

/// The base of the Gemini REST endpoints.
pub const DEFAULT_BASE_URL: &'static str = "https://generativelanguage.googleapis.com";

/// Maximum number of inputs supported by Gemini `batchEmbedContents`.
pub const GEMINI_MAX_BATCH_EMBED_ITEMS: usize = 100;

/// The largest answer asked of the scene-writing chat, in tokens.
pub const CHAT_MAX_OUTPUT_TOKENS: u32 = 3000;

/// The largest answer asked of the text check, in tokens.
pub const QA_MAX_OUTPUT_TOKENS: u32 = 100;

/// Gemini content container used in both requests and responses.
#[derive(Debug, PartialEq, Eq)]
pub struct Content {
    pub role: Option<String>,
    pub parts: Vec<Part>,
}

/// A text part or an inline media part.
#[derive(Debug, PartialEq, Eq)]
pub enum Part {
    Text { text: String },
    InlineData { inline_data: InlineData },
}

/// Base64 inline payload used for image and vision requests.
#[derive(Debug, PartialEq, Eq)]
pub struct InlineData {
    pub mime_type: String,
    pub data: String,
}

/// Top-level `generateContent` response envelope.
#[derive(Debug, PartialEq, Eq)]
pub struct GenerateContentResponse {
    pub candidates: Vec<Candidate>,
}

/// Candidate completion item returned by Gemini.
#[derive(Debug, PartialEq, Eq)]
pub struct Candidate {
    pub content: Content,
}

/// The request of the scene-writing chat.
#[derive(Debug, PartialEq, Eq)]
pub struct ChatRequest {
    pub system_instruction: Option<Content>,
    pub contents: Vec<Content>,
    pub max_output_tokens: Option<u32>,
}

/// The request for an image.
#[derive(Debug, PartialEq, Eq)]
pub struct ImageRequest {
    pub contents: Vec<Content>,
    pub response_modalities: Vec<String>,
    pub aspect_ratio: Option<String>,
}

/// The request of the text check.
#[derive(Debug, PartialEq, Eq)]
pub struct QaRequest {
    pub system_instruction: Option<Content>,
    pub contents: Vec<Content>,
    pub max_output_tokens: Option<u32>,
    pub response_mime_type: Option<String>,
}

/// A model name without a leading `models/`.
pub open spec fn bare_model(model: Seq<char>) -> Seq<char> {
    if "models/"@.is_prefix_of(model) {
        model.subrange("models/"@.len() as int, model.len() as int)
    } else {
        model
    }
}

/// Removes a leading `models/` from a model name: the endpoints add it
/// themselves.
pub fn strip_models_prefix(model: &str) -> (r: String)
    ensures
        r@ == bare_model(model@),
{
    if starts_with(model, "models/") {
        let n = model.unicode_len();
        let k = "models/".unicode_len();
        String::from_str(model.substring_char(k, n))
    } else {
        String::from_str(model)
    }
}

/// The URL of a model's endpoint for one method.
pub open spec fn endpoint_of(base_url: Seq<char>, model: Seq<char>, method: Seq<char>) -> Seq<
    char,
> {
    base_url + "/v1beta/models/"@ + model + ":"@ + method
}

fn endpoint(base_url: &str, model: &str, method: &str) -> (r: String)
    ensures
        r@ == endpoint_of(base_url@, model@, method@),
{
    let url = concat(base_url, "/v1beta/models/");
    let url = concat(url.as_str(), model);
    let url = concat(url.as_str(), ":");
    concat(url.as_str(), method)
}

/// The URL of a model's `generateContent` endpoint.
pub fn generate_content_url(base_url: &str, model: &str) -> (r: String)
    ensures
        r@ == endpoint_of(base_url@, model@, "generateContent"@),
{
    endpoint(base_url, model, "generateContent")
}

/// The URL of a model's `batchEmbedContents` endpoint.
pub fn batch_embed_contents_url(base_url: &str, model: &str) -> (r: String)
    ensures
        r@ == endpoint_of(base_url@, model@, "batchEmbedContents"@),
{
    endpoint(base_url, model, "batchEmbedContents")
}

/// The fully qualified name of a model, as embedding requests carry it.
pub fn qualified_model(model: &str) -> (r: String)
    ensures
        r@ == "models/"@ + model@,
{
    concat("models/", model)
}

/// The text of the first text part, if there is one.
pub open spec fn first_text(parts: Seq<Part>) -> Option<Seq<char>>
    decreases parts.len(),
{
    if parts.len() == 0 {
        None
    } else {
        match parts[0] {
            Part::Text { text } => Some(text@),
            Part::InlineData { .. } => first_text(parts.drop_first()),
        }
    }
}

/// The position of the first inline media part, if there is one.
pub open spec fn first_inline(parts: Seq<Part>) -> Option<int>
    decreases parts.len(),
{
    if parts.len() == 0 {
        None
    } else {
        match parts[0] {
            Part::InlineData { .. } => Some(0int),
            Part::Text { .. } => match first_inline(parts.drop_first()) {
                Some(i) => Some(i + 1),
                None => None,
            },
        }
    }
}

/// The text that an answer carries: the first text part of its first
/// candidate.
pub open spec fn answer_text(response: GenerateContentResponse) -> Option<Seq<char>> {
    if response.candidates@.len() == 0 {
        None
    } else {
        first_text(response.candidates@[0].content.parts@)
    }
}

/// The text of the first text part of the first candidate.
pub fn extract_text(response: &GenerateContentResponse) -> (r: Option<String>)
    ensures
        match r {
            Some(text) => answer_text(*response) == Some(text@),
            None => answer_text(*response) is None,
        },
{
    if response.candidates.len() == 0 {
        return None;
    }
    let parts = &response.candidates[0].content.parts;
    let mut i: usize = 0;
    assert(parts@.subrange(0, parts@.len() as int) =~= parts@);
    while i < parts.len()
        invariant
            i <= parts.len(),
            response.candidates@.len() > 0,
            *parts == response.candidates@[0].content.parts,
            first_text(parts@) == first_text(parts@.subrange(i as int, parts@.len() as int)),
        decreases parts.len() - i,
    {
        let ghost rest = parts@.subrange(i as int, parts@.len() as int);
        assert(rest[0] == parts@[i as int]);
        assert(rest.drop_first() =~= parts@.subrange(i + 1, parts@.len() as int));
        match &parts[i] {
            Part::Text { text } => {
                assert(parts@[i as int] == Part::Text { text: *text });
                assert(first_text(rest) == Some(text@));
                return Some(text.clone());
            },
            Part::InlineData { .. } => {},
        }
        i += 1;
    }
    assert(parts@.subrange(i as int, parts@.len() as int).len() == 0);
    None
}

/// The first inline media part of the first candidate.
pub fn extract_inline_data(response: &GenerateContentResponse) -> (r: Option<&InlineData>)
    ensures
        match r {
            Some(data) => response.candidates@.len() > 0 && (first_inline(
                response.candidates@[0].content.parts@,
            ) matches Some(i) && response.candidates@[0].content.parts@[i] == (Part::InlineData {
                inline_data: *data,
            })),
            None => response.candidates@.len() == 0 || first_inline(
                response.candidates@[0].content.parts@,
            ) is None,
        },
{
    if response.candidates.len() == 0 {
        return None;
    }
    let parts = &response.candidates[0].content.parts;
    let mut i: usize = 0;
    assert(parts@.subrange(0, parts@.len() as int) =~= parts@);
    while i < parts.len()
        invariant
            i <= parts.len(),
            response.candidates@.len() > 0,
            *parts == response.candidates@[0].content.parts,
            first_inline(parts@) == match first_inline(
                parts@.subrange(i as int, parts@.len() as int),
            ) {
                Some(k) => Some(k + i),
                None => None,
            },
        decreases parts.len() - i,
    {
        let ghost rest = parts@.subrange(i as int, parts@.len() as int);
        assert(rest[0] == parts@[i as int]);
        assert(rest.drop_first() =~= parts@.subrange(i + 1, parts@.len() as int));
        match &parts[i] {
            Part::InlineData { inline_data } => {
                assert(parts@[i as int] == Part::InlineData { inline_data: *inline_data });
                assert(first_inline(rest) == Some(0int));
                assert(first_inline(parts@) == Some(i as int));
                return Some(inline_data);
            },
            Part::Text { .. } => {},
        }
        i += 1;
    }
    assert(parts@.subrange(i as int, parts@.len() as int).len() == 0);
    None
}

/// A content of one text part.
pub fn text_content(role: Option<String>, text: String) -> (r: Content)
    ensures
        r.role == role,
        r.parts@ == seq![Part::Text { text }],
{
    let mut parts: Vec<Part> = Vec::new();
    parts.push(Part::Text { text });
    assert(parts@ =~= seq![Part::Text { text }]);
    Content { role, parts }
}

/// The request of the scene-writing chat: the system instruction, one user
/// message that names the words, and the answer limit.
pub fn chat_request(words: &[Word]) -> (r: ChatRequest)
    ensures
        r.system_instruction matches Some(system) && system.role is None && system.parts@.len()
            == 1 && first_text(system.parts@) == Some(CHAT_SYSTEM@),
        r.contents@.len() == 1,
        r.contents@[0].role matches Some(role) && role@ == "user"@,
        r.contents@[0].parts@.len() == 1,
        first_text(r.contents@[0].parts@) == Some(chat_user_text(words_model(words@))),
        r.max_output_tokens == Some(CHAT_MAX_OUTPUT_TOKENS),
{
    let system = text_content(None, String::from_str(CHAT_SYSTEM));
    let user = text_content(Some(String::from_str("user")), chat_user_prompt(words));
    let mut contents: Vec<Content> = Vec::new();
    contents.push(user);
    ChatRequest {
        system_instruction: Some(system),
        contents,
        max_output_tokens: Some(CHAT_MAX_OUTPUT_TOKENS),
    }
}

/// The request for a square image of the scene.
pub fn image_request(prompt: &str, words: &[Word]) -> (r: ImageRequest)
    ensures
        r.contents@.len() == 1,
        r.contents@[0].role is None,
        r.contents@[0].parts@.len() == 1,
        first_text(r.contents@[0].parts@) == Some(
            image_prompt_text(prompt@, words_model(words@)),
        ),
        r.response_modalities@.len() == 1,
        r.response_modalities@[0]@ == "IMAGE"@,
        r.aspect_ratio matches Some(ratio) && ratio@ == "1:1"@,
{
    let content = text_content(None, image_prompt(prompt, words));
    let mut contents: Vec<Content> = Vec::new();
    contents.push(content);
    let mut response_modalities: Vec<String> = Vec::new();
    response_modalities.push(String::from_str("IMAGE"));
    ImageRequest {
        contents,
        response_modalities,
        aspect_ratio: Some(String::from_str("1:1")),
    }
}

/// The request of the text check: the system instruction, and one user
/// message that holds the image inline, under the MIME type of its bytes,
/// followed by the question. Fails only for an image too large to encode.
pub fn qa_request(image_bytes: &[u8]) -> (r: Result<QaRequest, Error>)
    ensures
        r is Ok <==> encodable(image_bytes@),
        r matches Ok(request) ==> {
            &&& request.system_instruction matches Some(system) && system.role is None
                && system.parts@.len() == 1 && first_text(system.parts@) == Some(QA_SYSTEM@)
            &&& request.contents@.len() == 1
            &&& request.contents@[0].role matches Some(role) && role@ == "user"@
            &&& request.contents@[0].parts@.len() == 2
            &&& request.contents@[0].parts@[0] matches Part::InlineData { inline_data }
                && inline_data.mime_type@ == mime_of(image_bytes@) && inline_data.data@
                == base64_of(image_bytes@)
            &&& request.contents@[0].parts@[1] matches Part::Text { text } && text@ == QA_USER@
            &&& request.max_output_tokens == Some(QA_MAX_OUTPUT_TOKENS)
            &&& request.response_mime_type matches Some(mime) && mime@ == "application/json"@
        },
        r matches Err(e) ==> e@ == ErrorModel::InvalidInput("image too large to encode"@),
{
    let data = match encode_image(image_bytes) {
        Ok(data) => data,
        Err(e) => {
            return Err(e);
        },
    };
    let system = text_content(None, String::from_str(QA_SYSTEM));
    let mut parts: Vec<Part> = Vec::new();
    parts.push(
        Part::InlineData {
            inline_data: InlineData {
                mime_type: String::from_str(detect_image_mime(image_bytes)),
                data,
            },
        },
    );
    parts.push(Part::Text { text: String::from_str(QA_USER) });
    let mut contents: Vec<Content> = Vec::new();
    contents.push(Content { role: Some(String::from_str("user")), parts });
    Ok(
        QaRequest {
            system_instruction: Some(system),
            contents,
            max_output_tokens: Some(QA_MAX_OUTPUT_TOKENS),
            response_mime_type: Some(String::from_str("application/json")),
        },
    )
}

/// The scene that a chat answer carries, or a provider error when it
/// carries no text.
pub fn prompt_from_response(response: &GenerateContentResponse) -> (r: Result<String, Error>)
    ensures
        match r {
            Ok(text) => answer_text(*response) == Some(text@),
            Err(e) => answer_text(*response) is None && e@ == ErrorModel::AiProvider(
                "No text in Gemini chat response"@,
            ),
        },
{
    match extract_text(response) {
        Some(text) => Ok(text),
        None => Err(Error::AiProvider(String::from_str("No text in Gemini chat response"))),
    }
}

/// The text that a text-check answer carries, or a provider error when it
/// carries none.
pub fn detection_text_from_response(response: &GenerateContentResponse) -> (r: Result<
    String,
    Error,
>)
    ensures
        match r {
            Ok(text) => answer_text(*response) == Some(text@),
            Err(e) => answer_text(*response) is None && e@ == ErrorModel::AiProvider(
                "No response from Gemini text detection"@,
            ),
        },
{
    match extract_text(response) {
        Some(text) => Ok(text),
        None => Err(Error::AiProvider(String::from_str("No response from Gemini text detection"))),
    }
}

/// The image that an answer carries: the decoded bytes of the first inline
/// media part of its first candidate. An answer without such a part, or
/// with one that is no base64 text, is a provider error.
pub fn image_from_response(response: &GenerateContentResponse) -> (r: Result<Vec<u8>, Error>)
    ensures
        match extract_inline_spec(*response) {
            None => r matches Err(e) && e@ == ErrorModel::AiProvider(
                "No image data in Gemini response"@,
            ),
            Some(data) => match r {
                Ok(bytes) => base64_decoded(data) == Some(bytes@),
                Err(e) => base64_decoded(data) is None && (e@ matches ErrorModel::AiProvider(m)
                    && "Failed to decode Gemini base64 image: "@.is_prefix_of(m)),
            },
        },
{
    match extract_inline_data(response) {
        None => Err(Error::AiProvider(String::from_str("No image data in Gemini response"))),
        Some(inline) => decode_image(inline.data.as_str(), "Failed to decode Gemini base64 image: "),
    }
}

/// The base64 text of the first inline media part of the first candidate.
pub open spec fn extract_inline_spec(response: GenerateContentResponse) -> Option<Seq<char>> {
    if response.candidates@.len() == 0 {
        None
    } else {
        match first_inline(response.candidates@[0].content.parts@) {
            None => None,
            Some(i) => match response.candidates@[0].content.parts@[i] {
                Part::InlineData { inline_data } => Some(inline_data.data@),
                Part::Text { .. } => None,
            },
        }
    }
}

/// What an embedding call has to do with a batch of `count` texts.
#[derive(Debug, Clone, Copy, PartialEq, Eq, Structural)]
pub enum BatchPlan {
    /// Nothing to embed: answer with no vectors, without a request.
    Empty,
    /// Send one request.
    Send,
}

/// The message for a batch that is larger than Gemini takes.
pub open spec fn batch_too_large_text(count: nat) -> Seq<char> {
    "Gemini batchEmbedContents allows at most 100 texts per request (got "@ + decimal_of(count)
        + ")."@
}

/// Checks the size of a batch of texts before it is sent.
pub fn plan_batch(count: usize) -> (r: Result<BatchPlan, Error>)
    ensures
        count == 0 ==> r == Ok::<BatchPlan, Error>(BatchPlan::Empty),
        0 < count <= GEMINI_MAX_BATCH_EMBED_ITEMS ==> r == Ok::<BatchPlan, Error>(BatchPlan::Send),
        count > GEMINI_MAX_BATCH_EMBED_ITEMS ==> (r matches Err(e) && e@ == ErrorModel::Config(
            batch_too_large_text(count as nat),
        )),
{
    if count == 0 {
        Ok(BatchPlan::Empty)
    } else if count > GEMINI_MAX_BATCH_EMBED_ITEMS {
        let text = concat(
            "Gemini batchEmbedContents allows at most 100 texts per request (got ",
            decimal(count).as_str(),
        );
        Err(Error::Config(concat(text.as_str(), ").")))
    } else {
        Ok(BatchPlan::Send)
    }
}

/// Checks that an answer holds one embedding per text.
pub fn check_embedding_count<T>(expected: usize, embeddings: Vec<T>) -> (r: Result<Vec<T>, Error>)
    ensures
        match r {
            Ok(kept) => embeddings@.len() == expected && kept == embeddings,
            Err(e) => embeddings@.len() != expected && e@ == ErrorModel::AiProvider(
                embedding_count_text(expected as nat, embeddings@.len() as nat),
            ),
        },
{
    if embeddings.len() != expected {
        Err(embedding_count_error(expected, embeddings.len()))
    } else {
        Ok(embeddings)
    }
}

} // verus!
