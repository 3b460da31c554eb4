//! The word-list audit: which words are embedded, and how its settings are
//! checked. The similarity arithmetic itself is done by the audit's driver.

use crate::error::Error;
use crate::error::ErrorModel;
use crate::models::AiProvider;
use crate::text::concat;
use crate::text::decimal;
use crate::text::decimal_of;
use crate::text::lowercase;
use crate::ai::gemini::bare_model;
use crate::ai::gemini::strip_models_prefix;
use crate::ai::gemini::GEMINI_MAX_BATCH_EMBED_ITEMS;
use crate::text::strings_model;
use crate::text::to_lowercase;
use vstd::prelude::*;
use vstd::string::StringExecFns;

verus! {

/// The key under which a word is looked up: its lower-case form.
pub fn canonical_word_key(word: &str) -> (r: String)
    ensures
        r@ == lowercase(word@),
{
    to_lowercase(word)
}

/// Some word of the list has the key as its lower-case form.
pub open spec fn mentions(words: Seq<Seq<char>>, key: Seq<char>) -> bool {
    exists|i: int| 0 <= i < words.len() && lowercase(#[trigger] words[i]) == key
}

/// The words without repetitions, letter case ignored: every word that is
/// the first of its kind, in the order of the list.
pub open spec fn first_occurrences(words: Seq<Seq<char>>) -> Seq<Seq<char>>
    decreases words.len(),
{
    if words.len() == 0 {
        Seq::empty()
    } else if mentions(words.drop_last(), lowercase(words.last())) {
        first_occurrences(words.drop_last())
    } else {
        first_occurrences(words.drop_last()).push(words.last())
    }
}

/// The word lists of the categories, one after the other.
pub open spec fn flattened(lists: Seq<Seq<Seq<char>>>) -> Seq<Seq<char>>
    decreases lists.len(),
{
    if lists.len() == 0 {
        Seq::empty()
    } else {
        flattened(lists.drop_last()) + lists.last()
    }
}

/// The word lists of named categories.
pub open spec fn category_lists(categories: Seq<(String, Vec<String>)>) -> Seq<Seq<Seq<char>>> {
    Seq::new(categories.len(), |i: int| strings_model(categories[i].1@))
}

/// The first occurrences mention exactly the keys that the words mention.
pub proof fn lemma_first_occurrences_keep_keys(words: Seq<Seq<char>>, key: Seq<char>)
    ensures
        mentions(first_occurrences(words), key) == mentions(words, key),
    decreases words.len(),
{
    if words.len() > 0 {
        let front = words.drop_last();
        let last = words.last();
        lemma_first_occurrences_keep_keys(front, key);
        let kept = first_occurrences(words);
        if mentions(words, key) {
            let i = choose|i: int| 0 <= i < words.len() && lowercase(#[trigger] words[i]) == key;
            if i < front.len() {
                assert(front[i] == words[i]);
                assert(mentions(front, key));
            } else {
                assert(lowercase(last) == key);
            }
            if mentions(front, key) {
                let j = choose|j: int|
                    0 <= j < first_occurrences(front).len() && lowercase(
                        #[trigger] first_occurrences(front)[j],
                    ) == key;
                assert(kept[j] == first_occurrences(front)[j]);
            } else {
                assert(kept == first_occurrences(front).push(last));
                assert(lowercase(kept[kept.len() - 1]) == key);
            }
        }
        if mentions(kept, key) {
            let j = choose|j: int| 0 <= j < kept.len() && lowercase(#[trigger] kept[j]) == key;
            if j < first_occurrences(front).len() {
                assert(kept[j] == first_occurrences(front)[j]);
                assert(mentions(first_occurrences(front), key));
                let i = choose|i: int| 0 <= i < front.len() && lowercase(#[trigger] front[i]) == key;
                assert(words[i] == front[i]);
            } else {
                assert(kept[j] == last);
                assert(lowercase(words[words.len() - 1]) == key);
            }
        }
    }
}

/// Build one deduplicated list across all categories: every word once,
/// letter case ignored, in first-seen order and in its first-seen spelling.
pub fn collect_unique_words(categories: &[(String, Vec<String>)]) -> (r: Vec<String>)
    ensures
        strings_model(r@) == first_occurrences(flattened(category_lists(categories@))),
{
    let mut keys: Vec<String> = Vec::new();
    let mut unique: Vec<String> = Vec::new();
    let ghost lists = category_lists(categories@);
    let mut c: usize = 0;
    assert(lists.subrange(0, 0) =~= Seq::<Seq<Seq<char>>>::empty());
    assert(strings_model(unique@) =~= Seq::<Seq<char>>::empty());
    while c < categories.len()
        invariant
            c <= categories.len(),
            lists == category_lists(categories@),
            keys@.len() == unique@.len(),
            forall|k: int| 0 <= k < keys@.len() ==> (#[trigger] keys@[k])@ == lowercase(unique@[k]@),
            strings_model(unique@) == first_occurrences(flattened(lists.subrange(0, c as int))),
        decreases categories.len() - c,
    {
        let words = &categories[c].1;
        let ghost done = flattened(lists.subrange(0, c as int));
        let ghost list = strings_model(words@);
        let mut w: usize = 0;
        proof {
            assert(lists[c as int] == list);
            assert(done + list.subrange(0, 0) =~= done);
        }
        while w < words.len()
            invariant
                w <= words.len(),
                list == strings_model(words@),
                keys@.len() == unique@.len(),
                forall|k: int|
                    0 <= k < keys@.len() ==> (#[trigger] keys@[k])@ == lowercase(unique@[k]@),
                strings_model(unique@) == first_occurrences(done + list.subrange(0, w as int)),
            decreases words.len() - w,
        {
            let key = canonical_word_key(words[w].as_str());
            let ghost seen_words = done + list.subrange(0, w as int);
            let ghost next_words = done + list.subrange(0, w + 1);
            let mut seen = false;
            let mut k: usize = 0;
            while k < keys.len()
                invariant
                    k <= keys@.len(),
                    seen == exists|j: int| 0 <= j < k && (#[trigger] keys@[j])@ == key@,
                decreases keys.len() - k,
            {
                if keys[k] == key {
                    seen = true;
                }
                k += 1;
            }
            proof {
                assert(next_words.drop_last() =~= seen_words);
                assert(next_words.last() == words@[w as int]@);
                lemma_first_occurrences_keep_keys(seen_words, key@);
                let kept = strings_model(unique@);
                if seen {
                    let j = choose|j: int| 0 <= j < keys@.len() && (#[trigger] keys@[j])@ == key@;
                    assert(lowercase(kept[j]) == key@);
                    assert(mentions(kept, key@));
                }
                if mentions(kept, key@) {
                    let j = choose|j: int| 0 <= j < kept.len() && lowercase(#[trigger] kept[j]) == key@;
                    assert(keys@[j]@ == key@);
                }
                assert(seen == mentions(seen_words, key@));
            }
            if !seen {
                let ghost before = strings_model(unique@);
                keys.push(key);
                unique.push(words[w].clone());
                assert(strings_model(unique@) =~= before.push(words@[w as int]@));
            }
            w += 1;
        }
        proof {
            assert(list.subrange(0, words@.len() as int) =~= list);
            assert(lists.subrange(0, c + 1).drop_last() =~= lists.subrange(0, c as int));
            assert(lists.subrange(0, c + 1).last() == list);
        }
        c += 1;
    }
    assert(lists.subrange(0, categories@.len() as int) =~= lists);
    unique
}

/// The name of a provider's default embedding model.
pub open spec fn default_model_of(provider: AiProvider) -> Seq<char> {
    match provider {
        AiProvider::OpenAi => "text-embedding-3-small"@,
        AiProvider::Gemini => "gemini-embedding-001"@,
    }
}

/// Default embedding model per provider.
pub fn default_embedding_model(provider: &AiProvider) -> (r: &'static str)
    ensures
        r@ == default_model_of(*provider),
{
    match provider {
        AiProvider::OpenAi => "text-embedding-3-small",
        AiProvider::Gemini => "gemini-embedding-001",
    }
}

/// The model to use: the override or else the provider's default; for
/// Gemini without a leading `models/`, since its endpoints add that
/// themselves.
pub open spec fn resolved_model_of(provider: AiProvider, model: Option<Seq<char>>) -> Seq<char> {
    let chosen = match model {
        Some(m) => m,
        None => default_model_of(provider),
    };
    if provider == AiProvider::Gemini {
        bare_model(chosen)
    } else {
        chosen
    }
}

/// The model that the audit embeds with.
pub fn resolved_model(provider: AiProvider, model: Option<&str>) -> (r: String)
    ensures
        r@ == resolved_model_of(
            provider,
            match model {
                Some(m) => Some(m@),
                None => None,
            },
        ),
{
    let chosen: &str = match model {
        Some(m) => m,
        None => default_embedding_model(&provider),
    };
    match provider {
        AiProvider::Gemini => strip_models_prefix(chosen),
        AiProvider::OpenAi => String::from_str(chosen),
    }
}

/// The first setting that the audit refuses, in the order in which it
/// checks them: the batch size must be at least one, so must the number of
/// pairs reported per category, and Gemini takes no batch above its limit.
pub open spec fn settings_error(provider: AiProvider, batch_size: usize, max_pairs: usize)
    -> Option<Seq<char>> {
    if batch_size == 0 {
        Some("--batch-size must be >= 1"@)
    } else if max_pairs == 0 {
        Some("--max-pairs must be >= 1"@)
    } else if provider == AiProvider::Gemini && batch_size > GEMINI_MAX_BATCH_EMBED_ITEMS {
        Some("--batch-size must be <= 100 for provider gemini"@)
    } else {
        None
    }
}

/// Checks the audit's integer settings.
pub fn validate_settings(provider: AiProvider, batch_size: usize, max_pairs: usize) -> (r: Result<
    (),
    Error,
>)
    ensures
        match r {
            Ok(()) => settings_error(provider, batch_size, max_pairs) is None,
            Err(e) => settings_error(provider, batch_size, max_pairs) == Some(e@->Config_0)
                && e@ is Config,
        },
{
    if batch_size == 0 {
        return Err(Error::Config(String::from_str("--batch-size must be >= 1")));
    }
    if max_pairs == 0 {
        return Err(Error::Config(String::from_str("--max-pairs must be >= 1")));
    }
    match provider {
        AiProvider::Gemini => {
            if batch_size > GEMINI_MAX_BATCH_EMBED_ITEMS {
                return Err(
                    Error::Config(String::from_str("--batch-size must be <= 100 for provider gemini")),
                );
            }
        },
        AiProvider::OpenAi => {},
    }
    Ok(())
}

/// Caps a list of findings at `max_pairs`: the number found, whether the
/// list was cut, and the findings kept, which are the first ones.
pub fn cap_pairs<T>(pairs: Vec<T>, max_pairs: usize) -> (r: (usize, bool, Vec<T>))
    ensures
        r.0 == pairs@.len(),
        r.1 == (pairs@.len() > max_pairs),
        r.2@ == if pairs@.len() > max_pairs {
            pairs@.subrange(0, max_pairs as int)
        } else {
            pairs@
        },
{
    let mut pairs = pairs;
    let flagged_pairs = pairs.len();
    if flagged_pairs > max_pairs {
        pairs.truncate(max_pairs);
        (flagged_pairs, true, pairs)
    } else {
        (flagged_pairs, false, pairs)
    }
}

/// The message for a batch answer of the wrong length.
pub open spec fn length_mismatch_text(requested: nat, got: nat) -> Seq<char> {
    "Embedding response length mismatch: requested "@ + decimal_of(requested) + ", got "@
        + decimal_of(got)
}

/// Checks that a batch was answered with one vector per word.
pub fn check_batch_answer(requested: usize, got: usize) -> (r: Result<(), Error>)
    ensures
        match r {
            Ok(()) => requested == got,
            Err(e) => requested != got && e@ == ErrorModel::AiProvider(
                length_mismatch_text(requested as nat, got as nat),
            ),
        },
{
    if requested != got {
        let text = concat(
            "Embedding response length mismatch: requested ",
            decimal(requested).as_str(),
        );
        let text = concat(text.as_str(), ", got ");
        Err(Error::AiProvider(concat(text.as_str(), decimal(got).as_str())))
    } else {
        Ok(())
    }
}

/// The message for a vector of another dimension than the vectors before.
pub open spec fn dimension_mismatch_text(word: Seq<char>, expected: nat, got: nat) -> Seq<char> {
    "Embedding dimension mismatch for '"@ + word + "': expected "@ + decimal_of(expected)
        + ", got "@ + decimal_of(got)
}

/// Checks the dimension of the vector of a word against the dimension of
/// the vectors seen before, and answers with the dimension to expect from
/// now on. The first vector sets it.
pub fn check_dimension(expected: Option<usize>, got: usize, word: &str) -> (r: Result<usize, Error>)
    ensures
        match expected {
            None => r == Ok::<usize, Error>(got),
            Some(d) => if d == got {
                r == Ok::<usize, Error>(got)
            } else {
                r matches Err(e) && e@ == ErrorModel::AiProvider(
                    dimension_mismatch_text(word@, d as nat, got as nat),
                )
            },
        },
{
    match expected {
        None => Ok(got),
        Some(d) => {
            if d == got {
                Ok(got)
            } else {
                let text = concat("Embedding dimension mismatch for '", word);
                let text = concat(text.as_str(), "': expected ");
                let text = concat(text.as_str(), decimal(d).as_str());
                let text = concat(text.as_str(), ", got ");
                Err(Error::AiProvider(concat(text.as_str(), decimal(got).as_str())))
            }
        },
    }
}

/// The label of a comparison across two categories.
pub fn cross_label(left: &str, right: &str) -> (r: String)
    ensures
        r@ == "cross:"@ + left@ + " vs "@ + right@,
{
    let text = concat("cross:", left);
    let text = concat(text.as_str(), " vs ");
    concat(text.as_str(), right)
}

/// The error for a word without an embedding.
pub fn missing_embedding(word: &str) -> (r: Error)
    ensures
        r@ == ErrorModel::Invariant("Missing embedding for word '"@ + word@ + "'"@),
{
    let text = concat("Missing embedding for word '", word);
    Error::Invariant(concat(text.as_str(), "'"))
}

} // verus!
