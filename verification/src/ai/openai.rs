//! What is computed around the OpenAI REST calls: the requests that are
//! sent and what is read out of the answers.

use crate::ai::encoding::base64_decoded;
use crate::ai::encoding::base64_of;
use crate::ai::encoding::decode_image;
use crate::ai::encoding::encodable;
use crate::ai::encoding::encode_image;
use crate::ai::chat_user_prompt;
use crate::ai::chat_user_text;
use crate::ai::embedding_count_error;
use crate::ai::embedding_count_text;
use crate::ai::image_prompt;
use crate::ai::image_prompt_text;
use crate::ai::mime::detect_image_mime;
use crate::ai::mime::mime_of;
use crate::error::Error;
use crate::error::ErrorModel;
use crate::models::words_model;
use crate::models::Word;
use crate::prompts::CHAT_SYSTEM;
use crate::prompts::QA_SYSTEM;
use crate::prompts::QA_USER;
use crate::text::concat;
use vstd::prelude::*;
use vstd::string::StringExecFns;

verus! {

/// The base of the OpenAI REST endpoints.
pub const DEFAULT_BASE_URL: &'static str = "https://api.openai.com";

/// The path of the chat endpoint.
pub const CHAT_COMPLETIONS_PATH: &'static str = "/v1/chat/completions";

/// The path of the image endpoint.
pub const IMAGES_GENERATIONS_PATH: &'static str = "/v1/images/generations";

/// The path of the embedding endpoint.
pub const EMBEDDINGS_PATH: &'static str = "/v1/embeddings";

/// The largest answer asked of the scene-writing chat, in tokens.
pub const CHAT_MAX_COMPLETION_TOKENS: u32 = 3000;

/// The largest answer asked of the text check, in tokens.
pub const QA_MAX_COMPLETION_TOKENS: u32 = 100;

/// The JSON schema of the text check's answer: an object with the one
/// boolean field `includes_text`.
pub const TEXT_DETECTION_SCHEMA: &'static str =
    "{\"type\":\"object\",\"properties\":{\"includes_text\":{\"type\":\"boolean\",\"description\":\"True if the image contains any text, letters, words, or writing\"}},\"required\":[\"includes_text\"],\"additionalProperties\":false}";

/// Request body for OpenAI chat completions.
#[derive(Debug, PartialEq, Eq)]
pub struct ChatCompletionRequest {
    pub model: String,
    pub messages: Vec<ChatMessage>,
    pub max_completion_tokens: u32,
    pub response_format: Option<ResponseFormat>,
}

/// Structured response-format directive for chat completions.
#[derive(Debug, PartialEq, Eq)]
pub struct ResponseFormat {
    pub format_type: String,
    pub json_schema: JsonSchema,
}

/// JSON-schema payload for structured output mode; the schema is held as
/// its JSON text.
#[derive(Debug, PartialEq, Eq)]
pub struct JsonSchema {
    pub name: String,
    pub schema: String,
    pub strict: bool,
}

/// OpenAI message content used across chat and QA.
#[derive(Debug, PartialEq, Eq)]
pub enum ChatMessageContent {
    Text(String),
    ImageContent(Vec<MessagePart>),
}

/// One content segment in multipart message input.
#[derive(Debug, PartialEq, Eq)]
pub struct MessagePart {
    pub part_type: String,
    pub text: Option<String>,
    pub image_url: Option<ImageUrl>,
}

/// Image URL wrapper for OpenAI message payloads.
#[derive(Debug, PartialEq, Eq)]
pub struct ImageUrl {
    pub url: String,
}

/// Chat message object.
#[derive(Debug, PartialEq, Eq)]
pub struct ChatMessage {
    pub role: String,
    pub content: Option<ChatMessageContent>,
}

/// Top-level chat completion response.
#[derive(Debug, PartialEq, Eq)]
pub struct ChatCompletionResponse {
    pub choices: Vec<ChatChoice>,
}

/// Single choice item returned by chat completions.
#[derive(Debug, PartialEq, Eq)]
pub struct ChatChoice {
    pub message: ChatMessage,
    pub finish_reason: Option<String>,
}

/// Request body for image generation.
#[derive(Debug, PartialEq, Eq)]
pub struct ImageGenerationRequest {
    pub model: String,
    pub prompt: String,
    pub n: u32,
    pub size: String,
    pub quality: String,
}

/// Top-level image generation response.
#[derive(Debug, PartialEq, Eq)]
pub struct ImageGenerationResponse {
    pub data: Vec<ImageData>,
}

/// One generated image item (URL or base64).
#[derive(Debug, PartialEq, Eq)]
pub struct ImageData {
    pub url: Option<String>,
    pub b64_json: Option<String>,
}

/// Where the bytes of a generated image are.
#[derive(Debug, PartialEq, Eq)]
pub enum ImageSource {
    /// The answer carried the image itself.
    Bytes(Vec<u8>),
    /// The image has to be downloaded from this URL.
    Url(String),
}

/// The URL of an endpoint: the base and the path.
pub fn endpoint_url(base_url: &str, path: &str) -> (r: String)
    ensures
        r@ == base_url@ + path@,
{
    concat(base_url, path)
}

/// The value of the `Authorization` header for an API key.
pub fn bearer(api_key: &str) -> (r: String)
    ensures
        r@ == "Bearer "@ + api_key@,
{
    concat("Bearer ", api_key)
}

/// The message of a failed API call.
pub open spec fn api_error_text(provider: Seq<char>, status: Seq<char>, body: Seq<char>) -> Seq<
    char,
> {
    provider + " API error (status "@ + status + "): "@ + body
}

/// The provider error for an answer with an unsuccessful HTTP status.
pub fn api_error(provider: &str, status: &str, body: &str) -> (r: Error)
    ensures
        r@ == ErrorModel::AiProvider(api_error_text(provider@, status@, body@)),
{
    let text = concat(provider, " API error (status ");
    let text = concat(text.as_str(), status);
    let text = concat(text.as_str(), "): ");
    Error::AiProvider(concat(text.as_str(), body))
}

/// A message of plain text.
pub fn text_message(role: &str, text: String) -> (r: ChatMessage)
    ensures
        r.role@ == role@,
        r.content == Some(ChatMessageContent::Text(text)),
{
    ChatMessage { role: String::from_str(role), content: Some(ChatMessageContent::Text(text)) }
}

/// The text that an answer carries: the content of its first choice, when
/// that is plain text.
pub open spec fn answer_text(response: ChatCompletionResponse) -> Option<Seq<char>> {
    if response.choices@.len() == 0 {
        None
    } else {
        match response.choices@[0].message.content {
            Some(ChatMessageContent::Text(text)) => Some(text@),
            _ => None,
        }
    }
}

/// The plain text of the first choice.
pub fn first_choice_text(response: &ChatCompletionResponse) -> (r: Option<String>)
    ensures
        match r {
            Some(text) => answer_text(*response) == Some(text@),
            None => answer_text(*response) is None,
        },
{
    if response.choices.len() == 0 {
        return None;
    }
    match &response.choices[0].message.content {
        Some(ChatMessageContent::Text(text)) => Some(text.clone()),
        _ => None,
    }
}

/// The request of the scene-writing chat: the system message, one user
/// message that names the words, the answer limit, and no response format.
pub fn chat_request(model: &str, words: &[Word]) -> (r: ChatCompletionRequest)
    ensures
        r.model@ == model@,
        r.messages@.len() == 2,
        r.messages@[0].role@ == "system"@,
        r.messages@[0].content matches Some(ChatMessageContent::Text(t)) && t@ == CHAT_SYSTEM@,
        r.messages@[1].role@ == "user"@,
        r.messages@[1].content matches Some(ChatMessageContent::Text(t)) && t@ == chat_user_text(
            words_model(words@),
        ),
        r.max_completion_tokens == CHAT_MAX_COMPLETION_TOKENS,
        r.response_format is None,
{
    let mut messages: Vec<ChatMessage> = Vec::new();
    messages.push(text_message("system", String::from_str(CHAT_SYSTEM)));
    messages.push(text_message("user", chat_user_prompt(words)));
    ChatCompletionRequest {
        model: String::from_str(model),
        messages,
        max_completion_tokens: CHAT_MAX_COMPLETION_TOKENS,
        response_format: None,
    }
}

/// The scene that a chat answer carries, or a provider error when it
/// carries no text.
pub fn prompt_from_response(response: &ChatCompletionResponse) -> (r: Result<String, Error>)
    ensures
        match r {
            Ok(text) => answer_text(*response) == Some(text@),
            Err(e) => answer_text(*response) is None && e@ == ErrorModel::AiProvider(
                "No response from OpenAI chat API"@,
            ),
        },
{
    match first_choice_text(response) {
        Some(text) => Ok(text),
        None => Err(Error::AiProvider(String::from_str("No response from OpenAI chat API"))),
    }
}

/// The text that a text-check answer carries, or a provider error when it
/// carries none.
pub fn detection_text_from_response(response: &ChatCompletionResponse) -> (r: Result<
    String,
    Error,
>)
    ensures
        match r {
            Ok(text) => answer_text(*response) == Some(text@),
            Err(e) => answer_text(*response) is None && e@ == ErrorModel::AiProvider(
                "No response from text detection"@,
            ),
        },
{
    match first_choice_text(response) {
        Some(text) => Ok(text),
        None => Err(Error::AiProvider(String::from_str("No response from text detection"))),
    }
}

/// The request for one square image of medium quality.
pub fn image_request(model: &str, prompt: &str, words: &[Word]) -> (r: ImageGenerationRequest)
    ensures
        r.model@ == model@,
        r.prompt@ == image_prompt_text(prompt@, words_model(words@)),
        r.n == 1,
        r.size@ == "1024x1024"@,
        r.quality@ == "medium"@,
{
    ImageGenerationRequest {
        model: String::from_str(model),
        prompt: image_prompt(prompt, words),
        n: 1,
        size: String::from_str("1024x1024"),
        quality: String::from_str("medium"),
    }
}

/// Where the image of an answer is: in its first item, as base64 text when
/// there is one, and else behind its URL. An answer without an item, an
/// item with neither, and a base64 text that is none are provider errors.
pub fn image_source(response: &ImageGenerationResponse) -> (r: Result<ImageSource, Error>)
    ensures
        response.data@.len() == 0 ==> (r matches Err(e) && e@ == ErrorModel::AiProvider(
            "No image data in OpenAI response"@,
        )),
        response.data@.len() > 0 ==> match (response.data@[0].b64_json, response.data@[0].url) {
            (Some(text), _) => match r {
                Ok(source) => source matches ImageSource::Bytes(bytes) && base64_decoded(text@)
                    == Some(bytes@),
                Err(e) => base64_decoded(text@) is None && (e@ matches ErrorModel::AiProvider(m)
                    && "Failed to decode OpenAI base64 image: "@.is_prefix_of(m)),
            },
            (None, Some(url)) => r matches Ok(source) && (source matches ImageSource::Url(u)
                && u@ == url@),
            (None, None) => r matches Err(e) && e@ == ErrorModel::AiProvider(
                "No image data (neither base64 nor URL) in response"@,
            ),
        },
{
    if response.data.len() == 0 {
        return Err(Error::AiProvider(String::from_str("No image data in OpenAI response")));
    }
    let item = &response.data[0];
    match &item.b64_json {
        Some(text) => match decode_image(text.as_str(), "Failed to decode OpenAI base64 image: ") {
            Ok(bytes) => Ok(ImageSource::Bytes(bytes)),
            Err(e) => Err(e),
        },
        None => match &item.url {
            Some(url) => Ok(ImageSource::Url(url.clone())),
            None => Err(
                Error::AiProvider(
                    String::from_str("No image data (neither base64 nor URL) in response"),
                ),
            ),
        },
    }
}

/// The provider error for an image download with an unsuccessful status.
pub fn download_error(status: &str, body: &str) -> (r: Error)
    ensures
        r@ == ErrorModel::AiProvider(
            "OpenAI image download error (status "@ + status@ + "): "@ + body@,
        ),
{
    let text = concat("OpenAI image download error (status ", status);
    let text = concat(text.as_str(), "): ");
    Error::AiProvider(concat(text.as_str(), body))
}

/// The `data:` URL of base64 text under a MIME type.
pub open spec fn data_url_of(mime: Seq<char>, base64: Seq<char>) -> Seq<char> {
    "data:"@ + mime + ";base64,"@ + base64
}

/// The `data:` URL of base64 text under a MIME type.
pub fn data_url(mime: &str, base64: &str) -> (r: String)
    ensures
        r@ == data_url_of(mime@, base64@),
{
    let url = concat("data:", mime);
    let url = concat(url.as_str(), ";base64,");
    concat(url.as_str(), base64)
}

/// The request of the text check: the system message, one user message
/// with the question and the image as a `data:` URL under the MIME type
/// of its bytes, the answer limit, and the answer's JSON schema. Fails
/// only for an image too large to encode.
pub fn qa_request(model: &str, image_bytes: &[u8]) -> (r: Result<ChatCompletionRequest, Error>)
    ensures
        r is Ok <==> encodable(image_bytes@),
        r matches Ok(request) ==> {
            &&& request.model@ == model@
            &&& request.messages@.len() == 2
            &&& request.messages@[0].role@ == "system"@
            &&& request.messages@[0].content matches Some(ChatMessageContent::Text(t)) && t@
                == QA_SYSTEM@
            &&& request.messages@[1].role@ == "user"@
            &&& request.messages@[1].content matches Some(ChatMessageContent::ImageContent(parts))
                && {
                &&& parts@.len() == 2
                &&& parts@[0].part_type@ == "text"@
                &&& parts@[0].text matches Some(t) && t@ == QA_USER@
                &&& parts@[0].image_url is None
                &&& parts@[1].part_type@ == "image_url"@
                &&& parts@[1].text is None
                &&& parts@[1].image_url matches Some(u) && u.url@ == data_url_of(
                    mime_of(image_bytes@),
                    base64_of(image_bytes@),
                )
            }
            &&& request.max_completion_tokens == QA_MAX_COMPLETION_TOKENS
            &&& request.response_format matches Some(format) && format.format_type@
                == "json_schema"@ && format.json_schema.name@ == "text_detection"@
                && format.json_schema.schema@ == TEXT_DETECTION_SCHEMA@
                && format.json_schema.strict
        },
        r matches Err(e) ==> e@ == ErrorModel::InvalidInput("image too large to encode"@),
{
    let base64 = match encode_image(image_bytes) {
        Ok(text) => text,
        Err(e) => {
            return Err(e);
        },
    };
    let url = data_url(detect_image_mime(image_bytes), base64.as_str());
    let mut parts: Vec<MessagePart> = Vec::new();
    parts.push(
        MessagePart {
            part_type: String::from_str("text"),
            text: Some(String::from_str(QA_USER)),
            image_url: None,
        },
    );
    parts.push(
        MessagePart {
            part_type: String::from_str("image_url"),
            text: None,
            image_url: Some(ImageUrl { url }),
        },
    );
    let mut messages: Vec<ChatMessage> = Vec::new();
    messages.push(text_message("system", String::from_str(QA_SYSTEM)));
    messages.push(
        ChatMessage {
            role: String::from_str("user"),
            content: Some(ChatMessageContent::ImageContent(parts)),
        },
    );
    Ok(
        ChatCompletionRequest {
            model: String::from_str(model),
            messages,
            max_completion_tokens: QA_MAX_COMPLETION_TOKENS,
            response_format: Some(
                ResponseFormat {
                    format_type: String::from_str("json_schema"),
                    json_schema: JsonSchema {
                        name: String::from_str("text_detection"),
                        schema: String::from_str(TEXT_DETECTION_SCHEMA),
                        strict: true,
                    },
                },
            ),
        },
    )
}

/// Every item names a position below the number of items, and no two
/// items name the same: the positions are exactly `0..n`.
pub open spec fn positions_cover<T>(items: Seq<(usize, T)>) -> bool {
    &&& forall|k: int| 0 <= k < items.len() ==> (#[trigger] items[k]).0 < items.len()
    &&& forall|a: int, b: int|
        0 <= a < b < items.len() ==> (#[trigger] items[a]).0 != (#[trigger] items[b]).0
}

/// How many of the slots are filled.
pub open spec fn count_filled<T>(slots: Seq<Option<T>>) -> nat
    decreases slots.len(),
{
    if slots.len() == 0 {
        0
    } else {
        count_filled(slots.drop_last()) + if slots.last() is Some {
            1nat
        } else {
            0nat
        }
    }
}

proof fn lemma_fill_counts<T>(slots: Seq<Option<T>>, i: int, value: T)
    requires
        0 <= i < slots.len(),
        slots[i] is None,
    ensures
        count_filled(slots.update(i, Some(value))) == count_filled(slots) + 1,
    decreases slots.len(),
{
    let after = slots.update(i, Some(value));
    if i == slots.len() - 1 {
        assert(after.drop_last() =~= slots.drop_last());
    } else {
        lemma_fill_counts(slots.drop_last(), i, value);
        assert(after.drop_last() =~= slots.drop_last().update(i, Some(value)));
    }
}

proof fn lemma_all_filled<T>(slots: Seq<Option<T>>)
    ensures
        count_filled(slots) <= slots.len(),
        count_filled(slots) == slots.len() ==> forall|i: int|
            0 <= i < slots.len() ==> (#[trigger] slots[i]) is Some,
    decreases slots.len(),
{
    if slots.len() > 0 {
        lemma_all_filled(slots.drop_last());
        if count_filled(slots) == slots.len() {
            assert forall|i: int| 0 <= i < slots.len() implies (#[trigger] slots[i]) is Some by {
                if i < slots.len() - 1 {
                    assert(slots.drop_last()[i] == slots[i]);
                }
            }
        }
    }
}

/// Brings the embeddings of an answer into the order of the texts that
/// were sent. Each item carries the position of its text. The answer must
/// hold one item per text, and the positions must be exactly `0..n`; else
/// it is refused with a provider error.
pub fn order_embeddings<T>(items: Vec<(usize, T)>, expected: usize) -> (r: Result<Vec<T>, Error>)
    ensures
        match r {
            Ok(ordered) => {
                &&& items@.len() == expected
                &&& positions_cover(items@)
                &&& ordered@.len() == expected
                &&& forall|k: int|
                    0 <= k < items@.len() ==> ordered@[(#[trigger] items@[k]).0 as int]
                        == items@[k].1
            },
            Err(e) => if items@.len() != expected {
                e@ == ErrorModel::AiProvider(
                    embedding_count_text(expected as nat, items@.len() as nat),
                )
            } else {
                !positions_cover(items@) && e@ == ErrorModel::AiProvider(
                    "Embedding indices were non-contiguous or out of range"@,
                )
            },
        },
{
    let n = items.len();
    if n != expected {
        return Err(embedding_count_error(expected, n));
    }
    let mut slots: Vec<Option<T>> = Vec::new();
    let mut i: usize = 0;
    while i < n
        invariant
            i <= n,
            slots@.len() == i,
            forall|j: int| 0 <= j < i ==> (#[trigger] slots@[j]) is None,
            count_filled(slots@) == 0,
        decreases n - i,
    {
        let ghost before = slots@;
        slots.push(None);
        assert(slots@.drop_last() =~= before);
        i += 1;
    }
    let mut rest = items;
    while rest.len() > 0
        invariant
            n == items@.len(),
            n == expected,
            rest@.len() <= n,
            rest@ == items@.subrange(0, rest@.len() as int),
            slots@.len() == n,
            count_filled(slots@) == n - rest@.len(),
            forall|k: int|
                rest@.len() <= k < n ==> (#[trigger] items@[k]).0 < n && slots@[items@[k].0 as int]
                    == Some(items@[k].1),
            forall|a: int, b: int|
                rest@.len() <= a < b < n ==> (#[trigger] items@[a]).0 != (#[trigger] items@[b]).0,
            forall|j: int|
                0 <= j < n && (#[trigger] slots@[j]) is Some ==> exists|k: int|
                    rest@.len() <= k < n && (#[trigger] items@[k]).0 == j,
        decreases rest@.len(),
    {
        let ghost m = rest@.len() - 1;
        let ghost slots_before = slots@;
        let (position, value) = rest.pop().unwrap();
        assert(items@[m] == (position, value));
        if position >= n {
            assert(!positions_cover(items@));
            return Err(
                Error::AiProvider(
                    String::from_str("Embedding indices were non-contiguous or out of range"),
                ),
            );
        }
        if slots[position].is_some() {
            proof {
                let k = choose|k: int| m < k < n && (#[trigger] items@[k]).0 == position;
                assert(items@[m].0 == items@[k].0);
                assert(!positions_cover(items@));
            }
            return Err(
                Error::AiProvider(
                    String::from_str("Embedding indices were non-contiguous or out of range"),
                ),
            );
        }
        slots.set(position, Some(value));
        proof {
            lemma_fill_counts(slots_before, position as int, value);
            assert(rest@ =~= items@.subrange(0, m));
            assert forall|k: int| m <= k < n implies (#[trigger] items@[k]).0 < n && slots@[items@[k].0 as int]
                == Some(items@[k].1) by {
                if k > m {
                    assert(slots_before[items@[k].0 as int] == Some(items@[k].1));
                    assert(items@[k].0 != position);
                }
            }
            assert forall|a: int, b: int| m <= a < b < n implies (#[trigger] items@[a]).0
                != (#[trigger] items@[b]).0 by {
                if a == m {
                    assert(slots_before[items@[b].0 as int] is Some);
                }
            }
            assert forall|j: int| 0 <= j < n && (#[trigger] slots@[j]) is Some implies exists|
                k: int,
            | m <= k < n && (#[trigger] items@[k]).0 == j by {
                if j == position {
                    assert(items@[m].0 == j);
                } else {
                    assert(slots_before[j] is Some);
                    let k = choose|k: int| m + 1 <= k < n && (#[trigger] items@[k]).0 == j;
                    assert(items@[k].0 == j);
                }
            }
        }
    }
    let ghost full = slots@;
    proof {
        lemma_all_filled(full);
        assert(positions_cover(items@));
    }
    let mut ordered: Vec<T> = Vec::new();
    while slots.len() > 0
        invariant
            full.len() == n,
            n == expected,
            ordered@.len() + slots@.len() == n,
            forall|j: int| 0 <= j < n ==> (#[trigger] full[j]) is Some,
            forall|j: int| 0 <= j < ordered@.len() ==> Some(#[trigger] ordered@[j]) == full[j],
            forall|j: int| 0 <= j < slots@.len() ==> #[trigger] slots@[j] == full[ordered@.len() + j],
        decreases slots@.len(),
    {
        let ghost slots_before = slots@;
        let ghost done = ordered@.len();
        let slot = slots.remove(0);
        assert(slot == full[done as int]);
        let value = slot.unwrap();
        ordered.push(value);
        proof {
            assert forall|j: int| 0 <= j < slots@.len() implies #[trigger] slots@[j] == full[ordered@.len() + j] by {
                assert(slots@[j] == slots_before[j + 1]);
            }
        }
    }
    proof {
        assert forall|k: int| 0 <= k < items@.len() implies ordered@[(#[trigger] items@[k]).0 as int]
            == items@[k].1 by {
            assert(full[items@[k].0 as int] == Some(items@[k].1));
            assert(Some(ordered@[items@[k].0 as int]) == full[items@[k].0 as int]);
        }
    }
    Ok(ordered)
}

} // verus!
