//! Core data: words, challenges, days and the published day index.

use crate::error::Error;
use crate::text::str_eq;
use vstd::prelude::*;
use vstd::string::StringExecFns;

verus! {

/// Category of a catalog word.
#[derive(Debug, Clone, Copy, PartialEq, Eq, Structural)]
pub enum WordType {
    Object,
    Gerund,
    Concept,
}

/// A selected word together with its category.
#[derive(Debug, PartialEq, Eq)]
pub struct Word {
    pub word: String,
    pub word_type: WordType,
}

/// Mathematical value of a [`Word`].
pub struct WordModel {
    pub word: Seq<char>,
    pub word_type: WordType,
}

impl View for Word {
    type V = WordModel;

    open spec fn view(&self) -> WordModel {
        WordModel { word: self.word@, word_type: self.word_type }
    }
}

impl Clone for Word {
    fn clone(&self) -> (r: Self)
        ensures
            r@ == self@,
    {
        Word { word: self.word.clone(), word_type: self.word_type }
    }
}

/// The values of a list of words, in order.
pub open spec fn words_model(words: Seq<Word>) -> Seq<WordModel> {
    Seq::new(words.len(), |i: int| words[i]@)
}

/// Copies a list of words.
pub fn clone_words(words: &Vec<Word>) -> (r: Vec<Word>)
    ensures
        words_model(r@) == words_model(words@),
{
    let mut out: Vec<Word> = Vec::new();
    let mut i: usize = 0;
    while i < words.len()
        invariant
            i <= words.len(),
            out.len() == i,
            forall|j: int| 0 <= j < i ==> out[j]@ == words[j]@,
        decreases words.len() - i,
    {
        out.push(words[i].clone());
        i += 1;
    }
    assert(words_model(out@) =~= words_model(words@));
    out
}

/// Copies a byte buffer.
pub fn clone_bytes(bytes: &Vec<u8>) -> (r: Vec<u8>)
    ensures
        r@ == bytes@,
{
    let mut out: Vec<u8> = Vec::new();
    let mut i: usize = 0;
    while i < bytes.len()
        invariant
            i <= bytes.len(),
            out@ == bytes@.subrange(0, i as int),
        decreases bytes.len() - i,
    {
        out.push(bytes[i]);
        assert(out@ =~= bytes@.subrange(0, i + 1));
        i += 1;
    }
    assert(bytes@.subrange(0, bytes.len() as int) =~= bytes@);
    out
}

/// The published unit for one difficulty: its words, its prompt and where
/// its image lives.
#[derive(Debug, PartialEq, Eq)]
pub struct Challenge {
    pub words: Vec<Word>,
    pub image_path: String,
    pub image_url_jpg: String,
    pub image_url_webp: String,
    pub prompt: String,
}

/// Mathematical value of a [`Challenge`].
pub struct ChallengeModel {
    pub words: Seq<WordModel>,
    pub image_path: Seq<char>,
    pub image_url_jpg: Seq<char>,
    pub image_url_webp: Seq<char>,
    pub prompt: Seq<char>,
}

impl View for Challenge {
    type V = ChallengeModel;

    open spec fn view(&self) -> ChallengeModel {
        ChallengeModel {
            words: words_model(self.words@),
            image_path: self.image_path@,
            image_url_jpg: self.image_url_jpg@,
            image_url_webp: self.image_url_webp@,
            prompt: self.prompt@,
        }
    }
}

impl Challenge {
    pub fn new(
        words: Vec<Word>,
        image_path: String,
        image_url_jpg: String,
        image_url_webp: String,
        prompt: String,
    ) -> (r: Self)
        ensures
            r@ == (ChallengeModel {
                words: words_model(words@),
                image_path: image_path@,
                image_url_jpg: image_url_jpg@,
                image_url_webp: image_url_webp@,
                prompt: prompt@,
            }),
    {
        Self { words, image_path, image_url_jpg, image_url_webp, prompt }
    }
}

impl Clone for Challenge {
    fn clone(&self) -> (r: Self)
        ensures
            r@ == self@,
    {
        Challenge {
            words: clone_words(&self.words),
            image_path: self.image_path.clone(),
            image_url_jpg: self.image_url_jpg.clone(),
            image_url_webp: self.image_url_webp.clone(),
            prompt: self.prompt.clone(),
        }
    }
}

/// The four challenges of one day.
#[derive(Debug, PartialEq, Eq)]
pub struct Challenges {
    pub easy: Challenge,
    pub medium: Challenge,
    pub hard: Challenge,
    pub dreaming: Challenge,
}

/// Mathematical value of [`Challenges`].
pub struct ChallengesModel {
    pub easy: ChallengeModel,
    pub medium: ChallengeModel,
    pub hard: ChallengeModel,
    pub dreaming: ChallengeModel,
}

impl View for Challenges {
    type V = ChallengesModel;

    open spec fn view(&self) -> ChallengesModel {
        ChallengesModel {
            easy: self.easy@,
            medium: self.medium@,
            hard: self.hard@,
            dreaming: self.dreaming@,
        }
    }
}

impl Clone for Challenges {
    fn clone(&self) -> (r: Self)
        ensures
            r@ == self@,
    {
        Challenges {
            easy: self.easy.clone(),
            medium: self.medium.clone(),
            hard: self.hard.clone(),
            dreaming: self.dreaming.clone(),
        }
    }
}

/// The full published record of one calendar date.
#[derive(Debug, PartialEq, Eq)]
pub struct Day {
    /// `YYYY-MM-DD`.
    pub date: String,
    pub id: u32,
    pub challenges: Challenges,
}

/// Mathematical value of a [`Day`].
pub struct DayModel {
    pub date: Seq<char>,
    pub id: u32,
    pub challenges: ChallengesModel,
}

impl View for Day {
    type V = DayModel;

    open spec fn view(&self) -> DayModel {
        DayModel { date: self.date@, id: self.id, challenges: self.challenges@ }
    }
}

impl Clone for Day {
    fn clone(&self) -> (r: Self)
        ensures
            r@ == self@,
    {
        Day { date: self.date.clone(), id: self.id, challenges: self.challenges.clone() }
    }
}

/// One line of the day index: a date and the id issued to it.
#[derive(Debug, PartialEq, Eq)]
pub struct DateEntry {
    pub date: String,
    pub id: u32,
}

/// Mathematical value of a [`DateEntry`].
pub struct DateEntryModel {
    pub date: Seq<char>,
    pub id: u32,
}

impl View for DateEntry {
    type V = DateEntryModel;

    open spec fn view(&self) -> DateEntryModel {
        DateEntryModel { date: self.date@, id: self.id }
    }
}

impl Clone for DateEntry {
    fn clone(&self) -> (r: Self)
        ensures
            r@ == self@,
    {
        DateEntry { date: self.date.clone(), id: self.id }
    }
}

/// The day index: every date published so far with its id, oldest first.
#[derive(Debug, PartialEq, Eq)]
pub struct Days {
    pub days: Vec<DateEntry>,
}

/// Whether some entry carries `date`.
pub open spec fn has_date(entries: Seq<DateEntryModel>, date: Seq<char>) -> bool {
    exists|i: int| 0 <= i < entries.len() && (#[trigger] entries[i]).date == date
}

/// Whether `i` is the position of the first entry that carries `date`.
pub open spec fn is_first_match(entries: Seq<DateEntryModel>, date: Seq<char>, i: int) -> bool {
    &&& 0 <= i < entries.len()
    &&& entries[i].date == date
    &&& forall|j: int| 0 <= j < i ==> (#[trigger] entries[j]).date != date
}

/// The id of the first entry that carries `date`, if there is one.
pub open spec fn lookup(entries: Seq<DateEntryModel>, date: Seq<char>) -> Option<u32>
    decreases entries.len(),
{
    if entries.len() == 0 {
        None
    } else if entries[0].date == date {
        Some(entries[0].id)
    } else {
        lookup(entries.drop_first(), date)
    }
}

/// The largest id in the index, or 0 for an empty index.
pub open spec fn highest_id(entries: Seq<DateEntryModel>) -> int
    decreases entries.len(),
{
    if entries.len() == 0 {
        0
    } else {
        let rest = highest_id(entries.drop_last());
        if entries.last().id > rest {
            entries.last().id as int
        } else {
            rest
        }
    }
}

/// No date occurs twice and no id occurs twice.
pub open spec fn index_well_formed(entries: Seq<DateEntryModel>) -> bool {
    forall|i: int, j: int|
        0 <= i < j < entries.len() ==> (#[trigger] entries[i]).date != (#[trigger] entries[j]).date
            && entries[i].id != entries[j].id
}

/// `lookup` finds exactly the first entry with the date: it is `None` when
/// no entry carries the date, and the id at the first matching position
/// otherwise.
pub proof fn lemma_lookup_first_match(entries: Seq<DateEntryModel>, date: Seq<char>)
    ensures
        lookup(entries, date) is None <==> !has_date(entries, date),
        forall|i: int| is_first_match(entries, date, i) ==> lookup(entries, date) == Some(
            entries[i].id,
        ),
    decreases entries.len(),
{
    if entries.len() == 0 {
    } else if entries[0].date == date {
        assert(has_date(entries, date));
        assert forall|i: int| is_first_match(entries, date, i) implies lookup(entries, date)
            == Some(entries[i].id) by {
            if i > 0 {
                assert(entries[0].date != date);
            }
        }
    } else {
        let rest = entries.drop_first();
        lemma_lookup_first_match(rest, date);
        if has_date(entries, date) {
            let i = choose|i: int| 0 <= i < entries.len() && (#[trigger] entries[i]).date == date;
            assert(rest[i - 1] == entries[i]);
            assert(has_date(rest, date));
        }
        if has_date(rest, date) {
            let i = choose|i: int| 0 <= i < rest.len() && (#[trigger] rest[i]).date == date;
            assert(entries[i + 1] == rest[i]);
            assert(has_date(entries, date));
        }
        assert forall|i: int| is_first_match(entries, date, i) implies lookup(entries, date)
            == Some(entries[i].id) by {
            assert(i > 0);
            assert(rest[i - 1] == entries[i]);
            assert forall|j: int| 0 <= j < i - 1 implies (#[trigger] rest[j]).date != date by {
                assert(rest[j] == entries[j + 1]);
            }
            assert(is_first_match(rest, date, i - 1));
        }
    }
}

/// `highest_id` bounds every id in the index from above, is 0 exactly for
/// an index without a positive id, and is otherwise one of the ids.
pub proof fn lemma_highest_id_is_max(entries: Seq<DateEntryModel>)
    ensures
        forall|i: int| 0 <= i < entries.len() ==> (#[trigger] entries[i]).id <= highest_id(entries),
        0 <= highest_id(entries) <= u32::MAX,
        entries.len() == 0 ==> highest_id(entries) == 0,
        highest_id(entries) > 0 ==> exists|i: int|
            0 <= i < entries.len() && (#[trigger] entries[i]).id == highest_id(entries),
    decreases entries.len(),
{
    if entries.len() > 0 {
        let rest = entries.drop_last();
        lemma_highest_id_is_max(rest);
        assert forall|i: int| 0 <= i < entries.len() implies (#[trigger] entries[i]).id
            <= highest_id(entries) by {
            if i < entries.len() - 1 {
                assert(rest[i] == entries[i]);
            }
        }
        if highest_id(entries) > 0 {
            if entries.last().id > highest_id(rest) {
                assert(entries[entries.len() - 1].id == highest_id(entries));
            } else {
                let i = choose|i: int|
                    0 <= i < rest.len() && (#[trigger] rest[i]).id == highest_id(rest);
                assert(entries[i] == rest[i]);
            }
        }
    }
}

impl Days {
    /// The index as a sequence of entry values.
    pub open spec fn entries(&self) -> Seq<DateEntryModel> {
        Seq::new(self.days@.len(), |i: int| self.days@[i]@)
    }

    /// No date and no id occurs twice.
    pub open spec fn well_formed(&self) -> bool {
        index_well_formed(self.entries())
    }

    pub fn new() -> (r: Self)
        ensures
            r.entries() == Seq::<DateEntryModel>::empty(),
            r.well_formed(),
    {
        let r = Self { days: Vec::new() };
        assert(r.entries() =~= Seq::<DateEntryModel>::empty());
        r
    }

    /// Appends an entry. The index stays well formed when the date and the
    /// id are both new to it.
    pub fn add_day(&mut self, date: String, id: u32)
        ensures
            final(self).entries() == old(self).entries().push(DateEntryModel { date: date@, id }),
    {
        let ghost before = self.entries();
        self.days.push(DateEntry { date, id });
        assert(self.entries() =~= before.push(DateEntryModel { date: date@, id }));
    }

    /// The first entry recorded for `date`.
    pub fn find_by_date(&self, date: &str) -> (r: Option<&DateEntry>)
        ensures
            r is Some <==> has_date(self.entries(), date@),
            r matches Some(e) ==> lookup(self.entries(), date@) == Some(e.id) && e.date@ == date@
                && exists|i: int|
                is_first_match(self.entries(), date@, i) && self.days@[i] == *e,
            r is None ==> lookup(self.entries(), date@) is None,
    {
        let mut i: usize = 0;
        while i < self.days.len()
            invariant
                i <= self.days.len(),
                forall|j: int| 0 <= j < i ==> (#[trigger] self.entries()[j]).date != date@,
            decreases self.days.len() - i,
        {
            if str_eq(self.days[i].date.as_str(), date) {
                proof {
                    lemma_lookup_first_match(self.entries(), date@);
                    assert(self.entries()[i as int].date == date@);
                    assert(is_first_match(self.entries(), date@, i as int));
                }
                return Some(&self.days[i]);
            }
            i += 1;
        }
        proof {
            lemma_lookup_first_match(self.entries(), date@);
        }
        None
    }

    /// The largest id in the index; `None` for an empty index.
    pub fn max_id(&self) -> (r: Option<u32>)
        ensures
            r is None <==> self.days@.len() == 0,
            r matches Some(m) ==> m == highest_id(self.entries()) && (forall|i: int|
                0 <= i < self.days@.len() ==> (#[trigger] self.days@[i]).id <= m) && (exists|
                i: int,
            | 0 <= i < self.days@.len() && (#[trigger] self.days@[i]).id == m),
    {
        if self.days.len() == 0 {
            return None;
        }
        let mut best: u32 = self.days[0].id;
        let mut i: usize = 1;
        proof {
            assert(self.entries().subrange(0, 1).drop_last() =~= Seq::<DateEntryModel>::empty());
            assert(highest_id(self.entries().subrange(0, 1).drop_last()) == 0);
        }
        while i < self.days.len()
            invariant
                1 <= i <= self.days.len(),
                best == highest_id(self.entries().subrange(0, i as int)),
                forall|j: int| 0 <= j < i ==> (#[trigger] self.days@[j]).id <= best,
                exists|j: int| 0 <= j < i && (#[trigger] self.days@[j]).id == best,
            decreases self.days.len() - i,
        {
            proof {
                assert(self.entries().subrange(0, i + 1).drop_last() =~= self.entries().subrange(
                    0,
                    i as int,
                ));
            }
            if self.days[i].id > best {
                best = self.days[i].id;
            }
            i += 1;
        }
        assert(self.entries().subrange(0, i as int) =~= self.entries());
        Some(best)
    }
}

impl Clone for Days {
    fn clone(&self) -> (r: Self)
        ensures
            r.entries() == self.entries(),
    {
        let mut out: Vec<DateEntry> = Vec::new();
        let mut i: usize = 0;
        while i < self.days.len()
            invariant
                i <= self.days.len(),
                out.len() == i,
                forall|j: int| 0 <= j < i ==> out[j]@ == self.days[j]@,
            decreases self.days.len() - i,
        {
            out.push(self.days[i].clone());
            i += 1;
        }
        let r = Days { days: out };
        assert(r.entries() =~= self.entries());
        r
    }
}

impl Default for Days {
    fn default() -> (r: Self)
        ensures
            r.entries() == Seq::<DateEntryModel>::empty(),
    {
        Self::new()
    }
}

/// Which AI backend serves a capability.
#[derive(Debug, Clone, Copy, PartialEq, Eq, Structural)]
pub enum AiProvider {
    OpenAi,
    Gemini,
}

/// The name of a provider in settings.
pub open spec fn provider_name(provider: AiProvider) -> Seq<char> {
    match provider {
        AiProvider::OpenAi => "openai"@,
        AiProvider::Gemini => "gemini"@,
    }
}

impl AiProvider {
    /// The name of the provider in settings.
    pub fn name(&self) -> (r: &'static str)
        ensures
            r@ == provider_name(*self),
    {
        match self {
            AiProvider::OpenAi => "openai",
            AiProvider::Gemini => "gemini",
        }
    }

    /// The provider that a setting names: `openai` or `gemini`.
    pub fn parse(text: &str) -> (r: Option<AiProvider>)
        ensures
            r == if text@ == "openai"@ {
                Some(AiProvider::OpenAi)
            } else if text@ == "gemini"@ {
                Some(AiProvider::Gemini)
            } else {
                None
            },
    {
        if str_eq(text, "openai") {
            Some(AiProvider::OpenAi)
        } else if str_eq(text, "gemini") {
            Some(AiProvider::Gemini)
        } else {
            None
        }
    }
}

/// Process configuration.
#[derive(Debug, PartialEq, Eq)]
pub struct Config {
    pub openai_api_key: String,
    pub cdn_access_key_id: String,
    pub cdn_secret_access_key: String,
    pub cdn_endpoint: String,
    pub cdn_bucket: String,
    pub cdn_base_url: String,
}

impl Clone for Config {
    fn clone(&self) -> (r: Self)
        ensures
            r.openai_api_key@ == self.openai_api_key@,
            r.cdn_access_key_id@ == self.cdn_access_key_id@,
            r.cdn_secret_access_key@ == self.cdn_secret_access_key@,
            r.cdn_endpoint@ == self.cdn_endpoint@,
            r.cdn_bucket@ == self.cdn_bucket@,
            r.cdn_base_url@ == self.cdn_base_url@,
    {
        Config {
            openai_api_key: self.openai_api_key.clone(),
            cdn_access_key_id: self.cdn_access_key_id.clone(),
            cdn_secret_access_key: self.cdn_secret_access_key.clone(),
            cdn_endpoint: self.cdn_endpoint.clone(),
            cdn_bucket: self.cdn_bucket.clone(),
            cdn_base_url: self.cdn_base_url.clone(),
        }
    }
}

/// The value of an optional setting, or of its default.
pub open spec fn setting_or(value: Option<String>, default: Seq<char>) -> Seq<char> {
    match value {
        Some(v) => v@,
        None => default,
    }
}

fn or_default(value: Option<String>, default: &str) -> (r: String)
    ensures
        r@ == setting_or(value, default@),
{
    match value {
        Some(v) => v,
        None => String::from_str(default),
    }
}

impl Config {
    /// Builds the configuration from the settings found in the environment.
    /// The three credentials are required, in this order; the storage
    /// endpoint, bucket and public base URL fall back to their defaults.
    pub fn from_values(
        ai_api_key: Option<String>,
        cdn_access_key_id: Option<String>,
        cdn_secret_access_key: Option<String>,
        cdn_endpoint: Option<String>,
        cdn_bucket: Option<String>,
        cdn_base_url: Option<String>,
    ) -> (r: Result<Config, Error>)
        ensures
            r is Ok <==> ai_api_key is Some && cdn_access_key_id is Some
                && cdn_secret_access_key is Some,
            r matches Ok(c) ==> c.openai_api_key@ == ai_api_key.unwrap()@ && c.cdn_access_key_id@
                == cdn_access_key_id.unwrap()@ && c.cdn_secret_access_key@
                == cdn_secret_access_key.unwrap()@ && c.cdn_endpoint@ == setting_or(
                cdn_endpoint,
                "https://nyc3.digitaloceanspaces.com"@,
            ) && c.cdn_bucket@ == setting_or(cdn_bucket, "iamdreamingof"@) && c.cdn_base_url@
                == setting_or(cdn_base_url, "https://cdn.iamdreamingof.com"@),
            r matches Err(e) ==> e@ == crate::error::ErrorModel::Generic(
                if ai_api_key is None {
                    "AI_API_KEY not set"@
                } else if cdn_access_key_id is None {
                    "CDN_ACCESS_KEY_ID not set"@
                } else {
                    "CDN_SECRET_ACCESS_KEY not set"@
                },
            ),
    {
        let openai_api_key = match ai_api_key {
            Some(v) => v,
            None => {
                return Err(Error::Generic(String::from_str("AI_API_KEY not set")));
            },
        };
        let access = match cdn_access_key_id {
            Some(v) => v,
            None => {
                return Err(Error::Generic(String::from_str("CDN_ACCESS_KEY_ID not set")));
            },
        };
        let secret = match cdn_secret_access_key {
            Some(v) => v,
            None => {
                return Err(Error::Generic(String::from_str("CDN_SECRET_ACCESS_KEY not set")));
            },
        };
        Ok(
            Config {
                openai_api_key,
                cdn_access_key_id: access,
                cdn_secret_access_key: secret,
                cdn_endpoint: or_default(cdn_endpoint, "https://nyc3.digitaloceanspaces.com"),
                cdn_bucket: or_default(cdn_bucket, "iamdreamingof"),
                cdn_base_url: or_default(cdn_base_url, "https://cdn.iamdreamingof.com"),
            },
        )
    }
}

} // verus!
