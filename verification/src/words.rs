//! Word selection: one coherent set of four word groups per run, with no
//! word repeated across the groups.

use crate::error::Error;
use crate::error::ErrorModel;
use crate::models::Word;
use crate::models::WordModel;
use crate::models::WordType;
use crate::models::words_model;
use crate::text::lowercase;
use crate::text::strings_model;
use crate::text::to_lowercase;
use crate::json::json_string_list;
use crate::json::read_string_list;
use rand::seq::SliceRandom;
use vstd::prelude::*;

verus! {

/// How many complete selections are drawn before giving up.
pub const MAX_ATTEMPTS: usize = 100;

/// The thread-local random number generator of `rand`.
#[verifier::external_type_specification]
#[verifier::external_body]
pub struct ExThreadRng(rand::rngs::ThreadRng);

/// `rand::thread_rng` hands out the calling thread's generator, seeded by
/// the system. Nothing is known of the numbers it will produce. It panics
/// when the system cannot provide a seed.
pub assume_specification[ rand::thread_rng ]() -> (rng: rand::rngs::ThreadRng);

/// `idx` names one position of `list` for each picked text, no position
/// twice, and `list` holds the picked text at that position.
pub open spec fn picks(idx: Seq<int>, picked: Seq<Seq<char>>, list: Seq<Seq<char>>) -> bool {
    &&& idx.len() == picked.len()
    &&& forall|i: int|
        0 <= i < idx.len() ==> 0 <= #[trigger] idx[i] < list.len() && picked[i] == list[idx[i]]
    &&& forall|i: int, j: int| 0 <= i < j < idx.len() ==> #[trigger] idx[i] != #[trigger] idx[j]
}

/// `picked` was taken from `list` without replacement.
pub open spec fn is_selection(picked: Seq<Seq<char>>, list: Seq<Seq<char>>) -> bool {
    exists|idx: Seq<int>| picks(idx, picked, list)
}

/// `SliceRandom::choose_multiple` on a slice picks `amount` elements at
/// distinct positions, in random order, or all of them when the slice is
/// shorter than `amount`. Which positions come out is left open.
#[verifier::external_body]
fn choose_multiple(list: &Vec<String>, rng: &mut rand::rngs::ThreadRng, amount: usize) -> (r: Vec<
    String,
>)
    ensures
        r@.len() == if amount <= list@.len() {
            amount as nat
        } else {
            list@.len()
        },
        is_selection(strings_model(r@), strings_model(list@)),
{
    list.choose_multiple(rng, amount).cloned().collect()
}

/// Reads a category word list from its JSON text.
pub fn parse_word_list(json: &str) -> (r: Result<Vec<String>, Error>)
    ensures
        match r {
            Ok(list) => json_string_list(json@) == Some(strings_model(list@)),
            Err(e) => json_string_list(json@) is None && e@ is Serialization,
        },
{
    match read_string_list(json) {
        Ok(list) => Ok(list),
        Err(text) => Err(Error::Serialization(text)),
    }
}

/// The texts of a list of words, in order.
pub open spec fn word_texts(words: Seq<WordModel>) -> Seq<Seq<char>> {
    Seq::new(words.len(), |i: int| words[i].word)
}

/// The categories of a list of words, in order.
pub open spec fn word_types(words: Seq<WordModel>) -> Seq<WordType> {
    Seq::new(words.len(), |i: int| words[i].word_type)
}

/// No two words are the same when letter case is ignored.
pub open spec fn distinct_ignoring_case(words: Seq<WordModel>) -> bool {
    forall|i: int, j: int|
        0 <= i < j < words.len() ==> lowercase((#[trigger] words[i]).word) != lowercase(
            (#[trigger] words[j]).word,
        )
}

/// `words` are `count` words of category `word_type`, taken from `list`
/// without replacement.
pub open spec fn is_draw(
    words: Seq<WordModel>,
    word_type: WordType,
    count: int,
    list: Seq<Seq<char>>,
) -> bool {
    &&& words.len() == count
    &&& forall|i: int| 0 <= i < words.len() ==> (#[trigger] words[i]).word_type == word_type
    &&& is_selection(word_texts(words), list)
}

/// Gives every selected text the category it was drawn for.
pub fn tag_words(selected: &Vec<String>, word_type: WordType) -> (r: Vec<Word>)
    ensures
        r@.len() == selected@.len(),
        forall|i: int|
            0 <= i < r@.len() ==> (#[trigger] r@[i])@ == (WordModel {
                word: selected@[i]@,
                word_type,
            }),
        word_texts(words_model(r@)) == strings_model(selected@),
{
    let mut out: Vec<Word> = Vec::new();
    let mut i: usize = 0;
    while i < selected.len()
        invariant
            i <= selected.len(),
            out@.len() == i,
            forall|j: int|
                0 <= j < i ==> (#[trigger] out@[j])@ == (WordModel {
                    word: selected@[j]@,
                    word_type,
                }),
        decreases selected.len() - i,
    {
        out.push(Word { word: selected[i].clone(), word_type });
        i += 1;
    }
    assert(word_texts(words_model(out@)) =~= strings_model(selected@));
    out
}

/// The four word groups of one run.
#[derive(Debug, PartialEq, Eq)]
pub struct WordSets {
    pub easy: Vec<Word>,
    pub medium: Vec<Word>,
    pub hard: Vec<Word>,
    pub dreaming: Vec<Word>,
}

impl WordSets {
    /// All twelve words: easy, then medium, then hard, then dreaming.
    pub open spec fn all_words_model(&self) -> Seq<WordModel> {
        words_model(self.easy@) + words_model(self.medium@) + words_model(self.hard@)
            + words_model(self.dreaming@)
    }

    /// The category composition fixed for each difficulty: three objects;
    /// two objects and a gerund; an object and two gerunds; an object, a
    /// gerund and a concept.
    pub open spec fn has_shape(&self) -> bool {
        &&& word_types(words_model(self.easy@)) == seq![
            WordType::Object,
            WordType::Object,
            WordType::Object,
        ]
        &&& word_types(words_model(self.medium@)) == seq![
            WordType::Object,
            WordType::Object,
            WordType::Gerund,
        ]
        &&& word_types(words_model(self.hard@)) == seq![
            WordType::Object,
            WordType::Gerund,
            WordType::Gerund,
        ]
        &&& word_types(words_model(self.dreaming@)) == seq![
            WordType::Object,
            WordType::Gerund,
            WordType::Concept,
        ]
    }

    /// No word occurs twice across the four groups, ignoring letter case.
    pub open spec fn is_unique(&self) -> bool {
        distinct_ignoring_case(self.all_words_model())
    }

    /// All words of the four groups in one list.
    pub fn all_words(&self) -> (r: Vec<Word>)
        ensures
            words_model(r@) == self.all_words_model(),
    {
        let mut out: Vec<Word> = crate::models::clone_words(&self.easy);
        let mut medium = crate::models::clone_words(&self.medium);
        let mut hard = crate::models::clone_words(&self.hard);
        let mut dreaming = crate::models::clone_words(&self.dreaming);
        out.append(&mut medium);
        out.append(&mut hard);
        out.append(&mut dreaming);
        proof {
            let e = words_model(self.easy@);
            let m = words_model(self.medium@);
            let h = words_model(self.hard@);
            let d = words_model(self.dreaming@);
            assert(words_model(out@).len() == (e + m + h + d).len());
            assert forall|i: int| 0 <= i < out@.len() implies words_model(out@)[i] == (e + m + h
                + d)[i] by {
                if i < e.len() {
                    assert(words_model(out@)[i] == e[i]);
                } else if i < e.len() + m.len() {
                    assert(words_model(out@)[i] == m[i - e.len()]);
                } else if i < e.len() + m.len() + h.len() {
                    assert(words_model(out@)[i] == h[i - e.len() - m.len()]);
                } else {
                    assert(words_model(out@)[i] == d[i - e.len() - m.len() - h.len()]);
                }
            }
            assert(words_model(out@) =~= self.all_words_model());
        }
        out
    }
}

/// What becomes of one drawn selection.
#[derive(Debug, PartialEq, Eq)]
pub enum SelectionVerdict {
    /// The selection holds no word twice: it is the result.
    Accepted(WordSets),
    /// The selection repeats a word; another one is drawn.
    Redraw,
    /// The selection repeats a word, and no attempt is left.
    Exhausted,
}

/// The three category word lists, and the selection drawn from them.
pub struct WordSelector {
    objects: Vec<String>,
    gerunds: Vec<String>,
    concepts: Vec<String>,
}

impl WordSelector {
    /// The object words of the catalog.
    pub closed spec fn objects(&self) -> Seq<Seq<char>> {
        strings_model(self.objects@)
    }

    /// The gerund words of the catalog.
    pub closed spec fn gerunds(&self) -> Seq<Seq<char>> {
        strings_model(self.gerunds@)
    }

    /// The concept words of the catalog.
    pub closed spec fn concepts(&self) -> Seq<Seq<char>> {
        strings_model(self.concepts@)
    }

    /// The first category, in the order object, gerund, concept, whose list
    /// is shorter than the largest single draw taken from it: three
    /// objects, two gerunds, one concept.
    pub open spec fn shortfall(&self) -> Option<WordType> {
        if self.objects().len() < 3 {
            Some(WordType::Object)
        } else if self.gerunds().len() < 2 {
            Some(WordType::Gerund)
        } else if self.concepts().len() < 1 {
            Some(WordType::Concept)
        } else {
            None
        }
    }

    /// Every group of `sets` was drawn from the catalog by the rule of its
    /// difficulty, each draw without replacement from its category list.
    pub open spec fn drawn_from_catalog(&self, sets: &WordSets) -> bool {
        let easy = words_model(sets.easy@);
        let medium = words_model(sets.medium@);
        let hard = words_model(sets.hard@);
        let dreaming = words_model(sets.dreaming@);
        &&& is_draw(easy, WordType::Object, 3, self.objects())
        &&& medium.len() == 3
        &&& is_draw(medium.subrange(0, 2), WordType::Object, 2, self.objects())
        &&& is_draw(medium.subrange(2, 3), WordType::Gerund, 1, self.gerunds())
        &&& hard.len() == 3
        &&& is_draw(hard.subrange(0, 1), WordType::Object, 1, self.objects())
        &&& is_draw(hard.subrange(1, 3), WordType::Gerund, 2, self.gerunds())
        &&& dreaming.len() == 3
        &&& is_draw(dreaming.subrange(0, 1), WordType::Object, 1, self.objects())
        &&& is_draw(dreaming.subrange(1, 2), WordType::Gerund, 1, self.gerunds())
        &&& is_draw(dreaming.subrange(2, 3), WordType::Concept, 1, self.concepts())
    }

    /// A selector over the given category lists.
    pub fn new(objects: Vec<String>, gerunds: Vec<String>, concepts: Vec<String>) -> (r: Self)
        ensures
            r.objects() == strings_model(objects@),
            r.gerunds() == strings_model(gerunds@),
            r.concepts() == strings_model(concepts@),
    {
        Self { objects, gerunds, concepts }
    }

    /// A selector over the category lists given as three JSON texts, each
    /// an array of strings. The first text that is none fails the call.
    pub fn from_json(objects_json: &str, gerunds_json: &str, concepts_json: &str) -> (r: Result<
        Self,
        Error,
    >)
        ensures
            r is Ok <==> json_string_list(objects_json@) is Some && json_string_list(
                gerunds_json@,
            ) is Some && json_string_list(concepts_json@) is Some,
            r matches Ok(s) ==> Some(s.objects()) == json_string_list(objects_json@) && Some(
                s.gerunds(),
            ) == json_string_list(gerunds_json@) && Some(s.concepts()) == json_string_list(
                concepts_json@,
            ),
            r matches Err(e) ==> e@ is Serialization,
    {
        let objects = match parse_word_list(objects_json) {
            Ok(list) => list,
            Err(e) => {
                return Err(e);
            },
        };
        let gerunds = match parse_word_list(gerunds_json) {
            Ok(list) => list,
            Err(e) => {
                return Err(e);
            },
        };
        let concepts = match parse_word_list(concepts_json) {
            Ok(list) => list,
            Err(e) => {
                return Err(e);
            },
        };
        Ok(Self::new(objects, gerunds, concepts))
    }

    /// Fails when a category list cannot serve its largest draw.
    pub fn check_sufficient(&self) -> (r: Result<(), Error>)
        ensures
            r is Ok <==> self.shortfall() is None,
            r matches Err(e) ==> self.shortfall() matches Some(t) && e@
                == ErrorModel::InsufficientWords(t),
    {
        if self.objects.len() < 3 {
            Err(Error::InsufficientWords(WordType::Object))
        } else if self.gerunds.len() < 2 {
            Err(Error::InsufficientWords(WordType::Gerund))
        } else if self.concepts.len() < 1 {
            Err(Error::InsufficientWords(WordType::Concept))
        } else {
            Ok(())
        }
    }

    /// Judges the selection that attempt number `attempts_made` drew: a
    /// selection without a repeated word is accepted; any other is drawn
    /// again while fewer than [`MAX_ATTEMPTS`] attempts were made, and
    /// ends the search once that many were.
    pub fn judge(&self, sets: WordSets, attempts_made: usize) -> (r: SelectionVerdict)
        ensures
            r == if sets.is_unique() {
                SelectionVerdict::Accepted(sets)
            } else if attempts_made < MAX_ATTEMPTS {
                SelectionVerdict::Redraw
            } else {
                SelectionVerdict::Exhausted
            },
    {
        if self.all_words_unique(&sets) {
            SelectionVerdict::Accepted(sets)
        } else if attempts_made < MAX_ATTEMPTS {
            SelectionVerdict::Redraw
        } else {
            SelectionVerdict::Exhausted
        }
    }

    /// Draws one valid selection. Up to [`MAX_ATTEMPTS`] complete
    /// selections are drawn at random; the first without a repeated word is
    /// returned. A catalog that cannot serve its draws is refused before
    /// anything is drawn.
    pub fn select_words(&self) -> (r: Result<WordSets, Error>)
        ensures
            self.shortfall() matches Some(t) ==> r matches Err(e) && e@
                == ErrorModel::InsufficientWords(t),
            self.shortfall() is None ==> match r {
                Ok(sets) => self.drawn_from_catalog(&sets) && sets.has_shape() && sets.is_unique(),
                Err(e) => e@ == ErrorModel::SelectionExhausted,
            },
    {
        match self.check_sufficient() {
            Ok(()) => {},
            Err(e) => {
                return Err(e);
            },
        }
        let mut attempts: usize = 0;
        loop
            invariant
                self.shortfall() is None,
                attempts < MAX_ATTEMPTS,
            decreases MAX_ATTEMPTS - attempts,
        {
            attempts += 1;
            let sets = match self.generate_word_sets() {
                Ok(sets) => sets,
                Err(e) => {
                    return Err(e);
                },
            };
            match self.judge(sets, attempts) {
                SelectionVerdict::Accepted(sets) => {
                    return Ok(sets);
                },
                SelectionVerdict::Redraw => {},
                SelectionVerdict::Exhausted => {
                    return Err(Error::SelectionExhausted);
                },
            }
        }
    }

    /// Draws the four groups once, each by its rule, without looking at
    /// repetitions across groups.
    pub fn generate_word_sets(&self) -> (r: Result<WordSets, Error>)
        ensures
            r is Ok <==> self.shortfall() is None,
            r matches Ok(sets) ==> self.drawn_from_catalog(&sets) && sets.has_shape(),
            r matches Err(e) ==> self.shortfall() matches Some(t) && e@
                == ErrorModel::InsufficientWords(t),
    {
        let mut rng = rand::thread_rng();
        let easy = match self.select_random_words(&self.objects, 3, WordType::Object, &mut rng) {
            Ok(words) => words,
            Err(e) => {
                return Err(e);
            },
        };
        let mut medium = match self.select_random_words(
            &self.objects,
            2,
            WordType::Object,
            &mut rng,
        ) {
            Ok(words) => words,
            Err(e) => {
                return Err(e);
            },
        };
        let mut medium_gerunds = match self.select_random_words(
            &self.gerunds,
            1,
            WordType::Gerund,
            &mut rng,
        ) {
            Ok(words) => words,
            Err(e) => {
                return Err(e);
            },
        };
        let ghost m0 = words_model(medium@);
        let ghost m1 = words_model(medium_gerunds@);
        medium.append(&mut medium_gerunds);
        let mut hard = match self.select_random_words(&self.objects, 1, WordType::Object, &mut rng) {
            Ok(words) => words,
            Err(e) => {
                return Err(e);
            },
        };
        let mut hard_gerunds = match self.select_random_words(
            &self.gerunds,
            2,
            WordType::Gerund,
            &mut rng,
        ) {
            Ok(words) => words,
            Err(e) => {
                return Err(e);
            },
        };
        let ghost h0 = words_model(hard@);
        let ghost h1 = words_model(hard_gerunds@);
        hard.append(&mut hard_gerunds);
        let mut dreaming = match self.select_random_words(
            &self.objects,
            1,
            WordType::Object,
            &mut rng,
        ) {
            Ok(words) => words,
            Err(e) => {
                return Err(e);
            },
        };
        let mut dreaming_gerunds = match self.select_random_words(
            &self.gerunds,
            1,
            WordType::Gerund,
            &mut rng,
        ) {
            Ok(words) => words,
            Err(e) => {
                return Err(e);
            },
        };
        let mut dreaming_concepts = match self.select_random_words(
            &self.concepts,
            1,
            WordType::Concept,
            &mut rng,
        ) {
            Ok(words) => words,
            Err(e) => {
                return Err(e);
            },
        };
        let ghost d0 = words_model(dreaming@);
        let ghost d1 = words_model(dreaming_gerunds@);
        let ghost d2 = words_model(dreaming_concepts@);
        dreaming.append(&mut dreaming_gerunds);
        dreaming.append(&mut dreaming_concepts);
        let sets = WordSets { easy, medium, hard, dreaming };
        proof {
            let e = words_model(sets.easy@);
            let m = words_model(sets.medium@);
            let h = words_model(sets.hard@);
            let d = words_model(sets.dreaming@);
            assert(m.subrange(0, 2) =~= m0);
            assert(m.subrange(2, 3) =~= m1);
            assert(h.subrange(0, 1) =~= h0);
            assert(h.subrange(1, 3) =~= h1);
            assert(d.subrange(0, 1) =~= d0);
            assert(d.subrange(1, 2) =~= d1);
            assert(d.subrange(2, 3) =~= d2);
            assert(e[0].word_type == WordType::Object && e[1].word_type == WordType::Object
                && e[2].word_type == WordType::Object);
            assert(m0[0].word_type == WordType::Object && m0[1].word_type == WordType::Object
                && m1[0].word_type == WordType::Gerund);
            assert(m[0] == m0[0] && m[1] == m0[1] && m[2] == m1[0]);
            assert(h0[0].word_type == WordType::Object && h1[0].word_type == WordType::Gerund
                && h1[1].word_type == WordType::Gerund);
            assert(h[0] == h0[0] && h[1] == h1[0] && h[2] == h1[1]);
            assert(d0[0].word_type == WordType::Object && d1[0].word_type == WordType::Gerund
                && d2[0].word_type == WordType::Concept);
            assert(d[0] == d0[0] && d[1] == d1[0] && d[2] == d2[0]);
            assert(word_types(e) =~= seq![WordType::Object, WordType::Object, WordType::Object]);
            assert(word_types(m) =~= seq![WordType::Object, WordType::Object, WordType::Gerund]);
            assert(word_types(h) =~= seq![WordType::Object, WordType::Gerund, WordType::Gerund]);
            assert(word_types(d) =~= seq![WordType::Object, WordType::Gerund, WordType::Concept]);
        }
        Ok(sets)
    }

    /// Draws `count` words of one category from its list, without
    /// replacement.
    pub fn select_random_words(
        &self,
        word_list: &Vec<String>,
        count: usize,
        word_type: WordType,
        rng: &mut rand::rngs::ThreadRng,
    ) -> (r: Result<Vec<Word>, Error>)
        ensures
            r is Err <==> word_list@.len() < count,
            r matches Err(e) ==> e@ == ErrorModel::InsufficientWords(word_type),
            r matches Ok(words) ==> is_draw(
                words_model(words@),
                word_type,
                count as int,
                strings_model(word_list@),
            ),
    {
        if word_list.len() < count {
            return Err(Error::InsufficientWords(word_type));
        }
        let selected = choose_multiple(word_list, rng, count);
        let words = tag_words(&selected, word_type);
        Ok(words)
    }

    /// Whether no word occurs twice across the four groups, ignoring letter
    /// case.
    pub fn all_words_unique(&self, sets: &WordSets) -> (r: bool)
        ensures
            r == sets.is_unique(),
    {
        let words = sets.all_words();
        let mut keys: Vec<String> = Vec::new();
        let mut i: usize = 0;
        while i < words.len()
            invariant
                i <= words.len(),
                keys@.len() == i,
                words_model(words@) == sets.all_words_model(),
                forall|j: int| 0 <= j < i ==> (#[trigger] keys@[j])@ == lowercase(words@[j].word@),
                forall|a: int, b: int|
                    0 <= a < b < i ==> (#[trigger] keys@[a])@ != (#[trigger] keys@[b])@,
            decreases words.len() - i,
        {
            let key = to_lowercase(words[i].word.as_str());
            let mut j: usize = 0;
            while j < i
                invariant
                    j <= i,
                    i < words.len(),
                    keys@.len() == i,
                    key@ == lowercase(words@[i as int].word@),
                    words_model(words@) == sets.all_words_model(),
                    forall|k: int|
                        0 <= k < i ==> (#[trigger] keys@[k])@ == lowercase(words@[k].word@),
                    forall|k: int| 0 <= k < j ==> (#[trigger] keys@[k])@ != key@,
                decreases i - j,
            {
                if keys[j] == key {
                    proof {
                        let all = sets.all_words_model();
                        assert(all[j as int] == words@[j as int]@);
                        assert(all[i as int] == words@[i as int]@);
                        assert(lowercase(all[j as int].word) == lowercase(all[i as int].word));
                    }
                    return false;
                }
                j += 1;
            }
            keys.push(key);
            i += 1;
        }
        proof {
            let all = sets.all_words_model();
            assert forall|a: int, b: int| 0 <= a < b < all.len() implies lowercase(
                (#[trigger] all[a]).word,
            ) != lowercase((#[trigger] all[b]).word) by {
                assert(all[a] == words@[a]@);
                assert(all[b] == words@[b]@);
                assert(keys@[a]@ != keys@[b]@);
            }
        }
        true
    }
}

} // verus!
