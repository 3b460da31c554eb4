//! The AI collaborators of the pipeline and what is computed around them.

pub mod encoding;
pub mod gemini;
pub mod mime;
pub mod mock;
pub mod openai;

pub use mock::MockAiClient;

use crate::error::Error;
use crate::error::ErrorModel;
use crate::models::words_model;
use crate::models::Word;
use crate::models::WordModel;
use crate::prompts::render;
use crate::prompts::render_model;
use crate::prompts::CHAT_USER;
use crate::prompts::IMAGE_ENHANCEMENT;
use crate::text::concat;
use crate::text::decimal;
use crate::text::decimal_of;
use vstd::prelude::*;
use vstd::string::StringExecFns;

verus! {

/// The AI capabilities that a challenge build consumes. Every call may
/// fail with a provider error; nothing else is known of an implementation.
pub trait AiService {
    /// Writes a scene that involves the words.
    fn generate_prompt(&mut self, words: &[Word]) -> Result<String, Error>;

    /// Paints the scene; the bytes are an encoded image.
    fn generate_image(&mut self, prompt: &str, words: &[Word]) -> Result<Vec<u8>, Error>;

    /// Tells whether the image holds readable text.
    fn detect_text(&mut self, image_bytes: &[u8]) -> Result<bool, Error>;
}

/// The texts of the words, separated by a comma and a space.
pub open spec fn csv_of(words: Seq<WordModel>) -> Seq<char>
    decreases words.len(),
{
    if words.len() == 0 {
        Seq::empty()
    } else if words.len() == 1 {
        words[0].word
    } else {
        csv_of(words.drop_last()) + ", "@ + words.last().word
    }
}

/// The words as one comma-separated text.
pub fn words_to_csv(words: &[Word]) -> (r: String)
    ensures
        r@ == csv_of(words_model(words@)),
{
    let mut out = String::new();
    let mut i: usize = 0;
    let ghost all = words_model(words@);
    assert(all.subrange(0, 0) =~= Seq::<WordModel>::empty());
    while i < words.len()
        invariant
            i <= words.len(),
            all == words_model(words@),
            out@ == csv_of(all.subrange(0, i as int)),
        decreases words.len() - i,
    {
        proof {
            assert(all.subrange(0, i + 1).drop_last() =~= all.subrange(0, i as int));
            assert(all.subrange(0, i + 1).last() == words@[i as int]@);
        }
        if i > 0 {
            out.append(", ");
        } else {
            assert(out@ + words@[0].word@ =~= words@[0].word@);
        }
        out.append(words[i].word.as_str());
        i += 1;
    }
    assert(all.subrange(0, words@.len() as int) =~= all);
    out
}

/// The user message of the scene-writing chat for the words.
pub open spec fn chat_user_text(words: Seq<WordModel>) -> Seq<char> {
    render_model(CHAT_USER@, seq![("words"@, csv_of(words))])
}

/// The image request text for a scene and its words.
pub open spec fn image_prompt_text(prompt: Seq<char>, words: Seq<WordModel>) -> Seq<
    char,
> {
    render_model(IMAGE_ENHANCEMENT@, seq![("prompt"@, prompt), ("words"@, csv_of(words))])
}

/// The user message of the scene-writing chat for the words.
pub fn chat_user_prompt(words: &[Word]) -> (r: String)
    ensures
        r@ == chat_user_text(words_model(words@)),
{
    let list = words_to_csv(words);
    let vars = [("words", list.as_str())];
    assert(crate::prompts::vars_model(vars@) =~= seq![("words"@, csv_of(words_model(words@)))]);
    render(CHAT_USER, vars.as_slice())
}

/// The image request text for a scene and its words.
pub fn image_prompt(prompt: &str, words: &[Word]) -> (r: String)
    ensures
        r@ == image_prompt_text(prompt@, words_model(words@)),
{
    let list = words_to_csv(words);
    let vars = [("prompt", prompt), ("words", list.as_str())];
    assert(crate::prompts::vars_model(vars@) =~= seq![
        ("prompt"@, prompt@),
        ("words"@, csv_of(words_model(words@))),
    ]);
    render(IMAGE_ENHANCEMENT, vars.as_slice())
}

/// The message for an answer with the wrong number of embeddings.
pub open spec fn embedding_count_text(expected: nat, got: nat) -> Seq<char> {
    "Expected "@ + decimal_of(expected) + " embeddings, got "@ + decimal_of(got)
}

/// The provider error for an answer with the wrong number of embeddings.
pub fn embedding_count_error(expected: usize, got: usize) -> (r: Error)
    ensures
        r@ == ErrorModel::AiProvider(embedding_count_text(expected as nat, got as nat)),
{
    let text = concat("Expected ", decimal(expected).as_str());
    let text = concat(text.as_str(), " embeddings, got ");
    Error::AiProvider(concat(text.as_str(), decimal(got).as_str()))
}

} // verus!
