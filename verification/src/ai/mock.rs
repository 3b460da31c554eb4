//! A scripted stand-in for the AI collaborators.

use crate::ai::csv_of;
use crate::ai::words_to_csv;
use crate::ai::AiService;
use crate::error::Error;
use crate::models::clone_bytes;
use crate::models::words_model;
use crate::models::Word;
use crate::text::concat;
use crate::text::strings_model;
use vstd::prelude::*;

verus! {

/// One more call, unless the counter is at its limit already.
pub open spec fn counted(calls: usize) -> usize {
    if calls < usize::MAX {
        (calls + 1) as usize
    } else {
        calls
    }
}

fn count(calls: usize) -> (r: usize)
    ensures
        r == counted(calls),
{
    if calls < usize::MAX {
        calls + 1
    } else {
        calls
    }
}

/// The image that is handed out when none was scripted: a PNG of one pixel.
pub open spec fn default_image() -> Seq<u8> {
    seq![
        0x89u8, 0x50, 0x4E, 0x47, 0x0D, 0x0A, 0x1A, 0x0A, 0x00, 0x00, 0x00, 0x0D, 0x49, 0x48, 0x44, 0x52,
        0x00, 0x00, 0x00, 0x01, 0x00, 0x00, 0x00, 0x01, 0x08, 0x02, 0x00, 0x00, 0x00, 0x90, 0x77, 0x53,
        0xDE, 0x00, 0x00, 0x00, 0x0C, 0x49, 0x44, 0x41, 0x54, 0x08, 0x99, 0x63, 0xF8, 0xCF, 0xC0, 0x00,
        0x00, 0x00, 0x01, 0x00, 0x01, 0xE2, 0x25, 0x00, 0xBC, 0x00, 0x00, 0x00, 0x00, 0x49, 0x45, 0x4E,
        0x44, 0xAE, 0x42, 0x60, 0x82,
    ]
}

/// The values of a list of byte buffers, in order.
pub open spec fn buffers_model(buffers: Seq<Vec<u8>>) -> Seq<Seq<u8>> {
    Seq::new(buffers.len(), |i: int| buffers[i]@)
}

/// An AI collaborator that answers from scripts. Each capability hands out
/// its scripted answers in turn and starts over after the last; without a
/// script it hands out a default. Every call is counted.
#[derive(Debug)]
pub struct MockAiClient {
    prompt_responses: Vec<String>,
    image_responses: Vec<Vec<u8>>,
    text_detection_responses: Vec<bool>,
    call_count: usize,
    prompt_calls: usize,
    image_calls: usize,
    detection_calls: usize,
}

impl MockAiClient {
    /// The scripted prompts.
    pub closed spec fn prompt_responses(&self) -> Seq<Seq<char>> {
        strings_model(self.prompt_responses@)
    }

    /// The scripted images.
    pub closed spec fn image_responses(&self) -> Seq<Seq<u8>> {
        buffers_model(self.image_responses@)
    }

    /// The scripted answers of the text check.
    pub closed spec fn text_detection_responses(&self) -> Seq<bool> {
        self.text_detection_responses@
    }

    /// Calls served so far, over all capabilities.
    pub closed spec fn call_count(&self) -> usize {
        self.call_count
    }

    /// Prompts served so far.
    pub closed spec fn prompt_calls(&self) -> usize {
        self.prompt_calls
    }

    /// Images served so far.
    pub closed spec fn image_calls(&self) -> usize {
        self.image_calls
    }

    /// Text checks served so far.
    pub closed spec fn detection_calls(&self) -> usize {
        self.detection_calls
    }

    /// The scripts are the same in both clients.
    pub open spec fn same_scripts(&self, other: &Self) -> bool {
        &&& self.prompt_responses() == other.prompt_responses()
        &&& self.image_responses() == other.image_responses()
        &&& self.text_detection_responses() == other.text_detection_responses()
    }

    /// A client without scripts that has served no call.
    pub fn new() -> (r: Self)
        ensures
            r.prompt_responses() == Seq::<Seq<char>>::empty(),
            r.image_responses() == Seq::<Seq<u8>>::empty(),
            r.text_detection_responses() == Seq::<bool>::empty(),
            r.call_count() == 0,
            r.prompt_calls() == 0,
            r.image_calls() == 0,
            r.detection_calls() == 0,
    {
        let r = Self {
            prompt_responses: Vec::new(),
            image_responses: Vec::new(),
            text_detection_responses: Vec::new(),
            call_count: 0,
            prompt_calls: 0,
            image_calls: 0,
            detection_calls: 0,
        };
        assert(r.prompt_responses() =~= Seq::<Seq<char>>::empty());
        assert(r.image_responses() =~= Seq::<Seq<u8>>::empty());
        r
    }

    /// Adds a prompt to the end of the prompt script.
    pub fn with_prompt_response(self, response: String) -> (r: Self)
        ensures
            r.prompt_responses() == self.prompt_responses().push(response@),
            r.image_responses() == self.image_responses(),
            r.text_detection_responses() == self.text_detection_responses(),
            r.call_count() == self.call_count(),
            r.prompt_calls() == self.prompt_calls(),
            r.image_calls() == self.image_calls(),
            r.detection_calls() == self.detection_calls(),
    {
        let mut r = self;
        r.prompt_responses.push(response);
        assert(r.prompt_responses() =~= self.prompt_responses().push(response@));
        r
    }

    /// Adds an image to the end of the image script.
    pub fn with_image_response(self, response: Vec<u8>) -> (r: Self)
        ensures
            r.prompt_responses() == self.prompt_responses(),
            r.image_responses() == self.image_responses().push(response@),
            r.text_detection_responses() == self.text_detection_responses(),
            r.call_count() == self.call_count(),
            r.prompt_calls() == self.prompt_calls(),
            r.image_calls() == self.image_calls(),
            r.detection_calls() == self.detection_calls(),
    {
        let mut r = self;
        r.image_responses.push(response);
        assert(r.image_responses() =~= self.image_responses().push(response@));
        r
    }

    /// Adds an answer to the end of the text-check script.
    pub fn with_text_detection_response(self, has_text: bool) -> (r: Self)
        ensures
            r.prompt_responses() == self.prompt_responses(),
            r.image_responses() == self.image_responses(),
            r.text_detection_responses() == self.text_detection_responses().push(has_text),
            r.call_count() == self.call_count(),
            r.prompt_calls() == self.prompt_calls(),
            r.image_calls() == self.image_calls(),
            r.detection_calls() == self.detection_calls(),
    {
        let mut r = self;
        r.text_detection_responses.push(has_text);
        r
    }

    /// Calls served so far, over all capabilities.
    pub fn get_call_count(&self) -> (r: usize)
        ensures
            r == self.call_count(),
    {
        self.call_count
    }

    /// Prompts served so far.
    pub fn get_prompt_call_count(&self) -> (r: usize)
        ensures
            r == self.prompt_calls(),
    {
        self.prompt_calls
    }

    /// Images served so far.
    pub fn get_image_call_count(&self) -> (r: usize)
        ensures
            r == self.image_calls(),
    {
        self.image_calls
    }

    /// Text checks served so far.
    pub fn get_detection_call_count(&self) -> (r: usize)
        ensures
            r == self.detection_calls(),
    {
        self.detection_calls
    }
}

impl Default for MockAiClient {
    fn default() -> (r: Self)
        ensures
            r.call_count() == 0,
            r.prompt_responses() == Seq::<Seq<char>>::empty(),
            r.image_responses() == Seq::<Seq<u8>>::empty(),
            r.text_detection_responses() == Seq::<bool>::empty(),
    {
        Self::new()
    }
}

impl AiService for MockAiClient {
    /// The next scripted prompt, or `A dreamlike scene with ` and the
    /// words when no prompt was scripted.
    fn generate_prompt(&mut self, words: &[Word]) -> (r: Result<String, Error>)
        ensures
            final(self).same_scripts(old(self)),
            final(self).call_count() == counted(old(self).call_count()),
            final(self).prompt_calls() == counted(old(self).prompt_calls()),
            final(self).image_calls() == old(self).image_calls(),
            final(self).detection_calls() == old(self).detection_calls(),
            r matches Ok(prompt) && prompt@ == if old(self).prompt_responses().len() == 0 {
                "A dreamlike scene with "@ + csv_of(words_model(words@))
            } else {
                old(self).prompt_responses()[old(self).prompt_calls() as int % old(
                    self,
                ).prompt_responses().len() as int]
            },
    {
        let turn = self.prompt_calls;
        self.call_count = count(self.call_count);
        self.prompt_calls = count(self.prompt_calls);
        if self.prompt_responses.len() == 0 {
            let list = words_to_csv(words);
            Ok(concat("A dreamlike scene with ", list.as_str()))
        } else {
            let index = turn % self.prompt_responses.len();
            Ok(self.prompt_responses[index].clone())
        }
    }

    /// The next scripted image, or the default image when none was
    /// scripted.
    fn generate_image(&mut self, prompt: &str, words: &[Word]) -> (r: Result<Vec<u8>, Error>)
        ensures
            final(self).same_scripts(old(self)),
            final(self).call_count() == counted(old(self).call_count()),
            final(self).prompt_calls() == old(self).prompt_calls(),
            final(self).image_calls() == counted(old(self).image_calls()),
            final(self).detection_calls() == old(self).detection_calls(),
            r matches Ok(image) && image@ == if old(self).image_responses().len() == 0 {
                default_image()
            } else {
                old(self).image_responses()[old(self).image_calls() as int % old(
                    self,
                ).image_responses().len() as int]
            },
    {
        let turn = self.image_calls;
        self.call_count = count(self.call_count);
        self.image_calls = count(self.image_calls);
        if self.image_responses.len() == 0 {
            let image: Vec<u8> = vec![
                0x89u8, 0x50, 0x4E, 0x47, 0x0D, 0x0A, 0x1A, 0x0A, 0x00, 0x00, 0x00, 0x0D, 0x49, 0x48, 0x44, 0x52,
                0x00, 0x00, 0x00, 0x01, 0x00, 0x00, 0x00, 0x01, 0x08, 0x02, 0x00, 0x00, 0x00, 0x90, 0x77, 0x53,
                0xDE, 0x00, 0x00, 0x00, 0x0C, 0x49, 0x44, 0x41, 0x54, 0x08, 0x99, 0x63, 0xF8, 0xCF, 0xC0, 0x00,
                0x00, 0x00, 0x01, 0x00, 0x01, 0xE2, 0x25, 0x00, 0xBC, 0x00, 0x00, 0x00, 0x00, 0x49, 0x45, 0x4E,
                0x44, 0xAE, 0x42, 0x60, 0x82,
            ];
            assert(image@ =~= default_image());
            Ok(image)
        } else {
            let index = turn % self.image_responses.len();
            Ok(clone_bytes(&self.image_responses[index]))
        }
    }

    /// The next scripted answer, or `false` when none was scripted.
    fn detect_text(&mut self, image_bytes: &[u8]) -> (r: Result<bool, Error>)
        ensures
            final(self).same_scripts(old(self)),
            final(self).call_count() == counted(old(self).call_count()),
            final(self).prompt_calls() == old(self).prompt_calls(),
            final(self).image_calls() == old(self).image_calls(),
            final(self).detection_calls() == counted(old(self).detection_calls()),
            r == Ok::<bool, Error>(
                if old(self).text_detection_responses().len() == 0 {
                    false
                } else {
                    old(self).text_detection_responses()[old(self).detection_calls() as int % old(
                        self,
                    ).text_detection_responses().len() as int]
                },
            ),
    {
        let turn = self.detection_calls;
        self.call_count = count(self.call_count);
        self.detection_calls = count(self.detection_calls);
        if self.text_detection_responses.len() == 0 {
            Ok(false)
        } else {
            let index = turn % self.text_detection_responses.len();
            Ok(self.text_detection_responses[index])
        }
    }
}

} // verus!
